# music_client

The decision logic of a GTK music player for Jellyfin and Subsonic servers,
written in Verus: every function under `src/` has a contract that Verus
proves. `app/` is ordinary Rust around it, without contracts.

- `src/backend.rs`: the two kinds of server session, whether each is logged in,
  and the stream URI of an item.
- `src/library.rs`, `src/library_utils.rs`: the song library and the queues
  built when an album, artist, song, instant mix or playlist is played.
- `src/subsonic/api.rs`: Subsonic payloads, the response status, ids sent as
  text or numbers, and lists whose malformed items are skipped.
- `src/ui/`: the context menu, the "add to playlist" dialog and duplicate
  check, and the player bar (clock text, buttons, actions, song info, the
  lyrics window, and the debounced seek of the position scale).
- `src/text.rs`: decimal rendering of integers.
- `app/`: serde readers for the Subsonic payloads, the error type with its
  messages, the hand-over of queues to an audio model, and the player bar and
  dialogs driven through small widget traits.
