//! What the player bar shows and decides: the clock text, the play/pause and
//! favorite buttons, the artist line, the song menu, and the favorite flag
//! after a request to change it.
use vstd::prelude::*;
use vstd::string::*;

use crate::text::{
    decimal, digit_char, digit_text, digits_value, lemma_decimal_injective, lemma_decimal_is_digits,
    lemma_decimal_no_leading_zero, lemma_decimal_value, push_decimal,
};
use crate::backend::BackendError;
use crate::ui::music_context_menu::{
    entry, menu_spec, navigation_section, other_section, playlist_section, queue_section,
    ContextActions,
};

verus! {

/// Two digits for a number below 100, with a leading zero below 10.
pub open spec fn two_digits(n: nat) -> Seq<char> {
    seq![digit_char(n / 10), digit_char(n % 10)]
}

/// `minutes:seconds`, the seconds always written with two digits.
pub open spec fn clock_text(seconds: nat) -> Seq<char> {
    decimal(seconds / 60) + seq![':'] + two_digits(seconds % 60)
}

/// Renders a duration in seconds as `minutes:seconds`, e.g. `3:07` or `61:40`.
pub fn format_time(seconds: u32) -> (s: String)
    ensures
        s@ == clock_text(seconds as nat),
{
    let minutes: u32 = seconds / 60;
    let rest: u32 = seconds % 60;
    let mut s = String::new();
    push_decimal(&mut s, minutes as u64);
    proof {
        reveal_strlit(":");
    }
    s.append(":");
    s.append(digit_text((rest / 10) as u64));
    s.append(digit_text((rest % 10) as u64));
    assert(s@ =~= clock_text(seconds as nat));
    s
}

/// The icon and the (untranslated) tooltip of the play/pause button.
#[derive(Debug, PartialEq, Eq)]
pub struct ButtonLook {
    pub icon: &'static str,
    pub tooltip: &'static str,
}

/// While playing, the button offers to pause; otherwise to play.
pub fn play_pause_look(playing: bool) -> (r: ButtonLook)
    ensures
        playing ==> r.icon@ == "media-playback-pause-symbolic"@ && r.tooltip@ == "Pause"@,
        !playing ==> r.icon@ == "media-playback-start-symbolic"@ && r.tooltip@ == "Play"@,
{
    if playing {
        ButtonLook { icon: "media-playback-pause-symbolic", tooltip: "Pause" }
    } else {
        ButtonLook { icon: "media-playback-start-symbolic", tooltip: "Play" }
    }
}

/// The icon of the favorite button: a filled star when active.
pub fn favorite_icon(active: bool) -> (r: &'static str)
    ensures
        active ==> r@ == "starred-symbolic"@,
        !active ==> r@ == "non-starred-symbolic"@,
{
    if active {
        "starred-symbolic"
    } else {
        "non-starred-symbolic"
    }
}

/// The texts of a list joined with a separator between neighbours.
pub open spec fn joined(list: Seq<Seq<char>>, sep: Seq<char>) -> Seq<char>
    decreases list.len(),
{
    if list.len() == 0 {
        Seq::empty()
    } else if list.len() == 1 {
        list[0]
    } else {
        joined(list.drop_last(), sep) + sep + list.last()
    }
}

/// The texts of a vector of strings.
pub open spec fn texts(list: Seq<String>) -> Seq<Seq<char>> {
    list.map_values(|s: String| s@)
}

/// The artist line of the current song: the artists joined by `, `, or
/// nothing when the song names no artist (the caller then shows the
/// translated "Unknown Artist").
pub fn artist_line(artists: &Vec<String>) -> (r: Option<String>)
    ensures
        artists@.len() == 0 ==> r is None,
        artists@.len() > 0 ==> (r matches Some(s) && s@ == joined(texts(artists@), ", "@)),
{
    if artists.len() == 0 {
        return None;
    }
    let mut s = artists[0].clone();
    let mut i: usize = 1;
    assert(texts(artists@).take(1).drop_last() =~= Seq::<Seq<char>>::empty());
    while i < artists.len()
        invariant
            1 <= i <= artists.len(),
            s@ == joined(texts(artists@).take(i as int), ", "@),
        decreases artists.len() - i,
    {
        s.append(", ");
        s.append(artists[i].as_str());
        assert(texts(artists@).take(i + 1).drop_last() =~= texts(artists@).take(i as int));
        i += 1;
    }
    assert(texts(artists@).take(i as int) =~= texts(artists@));
    Some(s)
}

/// What the player bar knows of the current song for its labels.
#[derive(Debug, PartialEq, Eq)]
pub struct CurrentSong {
    pub id: String,
    pub album_id: String,
    pub has_lyrics: bool,
}

/// What the player bar updates when the song changes.
#[derive(Debug, PartialEq, Eq)]
pub struct SongInfoUpdate {
    /// The artist line; `None` means the translated "Unknown Artist".
    pub artist_line: Option<String>,
    /// Whether the lyrics button is enabled; `None` leaves it as it is.
    pub lyrics_sensitive: Option<bool>,
    /// The song id and album id whose art is loaded; `None` loads nothing.
    pub album_art: Option<(String, String)>,
    /// The favorite button is bound anew to the current song afterwards.
    pub renew_favorite_binding: bool,
}

/// The song-info update: the artist line; for a current song, the lyrics
/// button follows whether it has lyrics and its album art is loaded; then the
/// favorite binding is renewed.
pub fn song_info_update(artists: &Vec<String>, current: Option<&CurrentSong>) -> (r: SongInfoUpdate)
    ensures
        artists@.len() == 0 ==> r.artist_line is None,
        artists@.len() > 0 ==> (r.artist_line matches Some(s) && s@ == joined(texts(artists@), ", "@)),
        match current {
            Some(c) => r.lyrics_sensitive == Some(c.has_lyrics) && (r.album_art matches Some(
                art,
            ) && art.0@ == c.id@ && art.1@ == c.album_id@),
            None => r.lyrics_sensitive is None && r.album_art is None,
        },
        r.renew_favorite_binding,
{
    let line = artist_line(artists);
    match current {
        Some(c) => SongInfoUpdate {
            artist_line: line,
            lyrics_sensitive: Some(c.has_lyrics),
            album_art: Some((c.id.clone(), c.album_id.clone())),
            renew_favorite_binding: true,
        },
        None => SongInfoUpdate {
            artist_line: line,
            lyrics_sensitive: None,
            album_art: None,
            renew_favorite_binding: true,
        },
    }
}

/// How the favorite button follows the current song.
#[derive(Debug, PartialEq, Eq)]
pub enum FavoriteBinding {
    /// Bind the button's state to the current song's favorite flag.
    Bind,
    /// Drop the binding, release the button and show this icon.
    Clear { icon: &'static str },
}

/// With a current song the button is bound to its flag; without one the
/// binding is dropped and the button shows an empty star.
pub fn favorite_binding_update(has_current_song: bool) -> (r: FavoriteBinding)
    ensures
        has_current_song <==> r is Bind,
        !has_current_song ==> (r matches FavoriteBinding::Clear { icon } && icon@
            == "non-starred-symbolic"@),
{
    if has_current_song {
        FavoriteBinding::Bind
    } else {
        FavoriteBinding::Clear { icon: "non-starred-symbolic" }
    }
}

/// Whether the lyrics window of the player bar is open.
#[derive(Debug, PartialEq, Eq)]
pub struct LyricsWindow {
    pub open: bool,
}

/// What a click on the lyrics button does.
#[derive(Debug, PartialEq, Eq)]
pub enum LyricsAction {
    /// Bring the open window to the front.
    PresentExisting,
    /// Create a window, fetch the current song's lyrics, and show it.
    CreateNew,
}

/// A click on the lyrics button: the open window is shown again, and a new
/// one is made only when none is open, so there is never more than one.
pub fn show_lyrics_step(window: &mut LyricsWindow) -> (r: LyricsAction)
    ensures
        old(window).open ==> r is PresentExisting,
        !old(window).open ==> r is CreateNew,
        final(window).open,
{
    if window.open {
        LyricsAction::PresentExisting
    } else {
        window.open = true;
        LyricsAction::CreateNew
    }
}

/// The lyrics window was closed.
pub fn lyrics_closed(window: &mut LyricsWindow)
    ensures
        !final(window).open,
{
    window.open = false;
}

/// What a click on the favorite button does at once: with a current song, its
/// flag is set to the requested value before the request is sent (and the
/// request is sent); without one, nothing happens.
pub fn favorite_toggle_start(has_current_song: bool, requested: bool) -> (r: Option<bool>)
    ensures
        has_current_song ==> r == Some(requested),
        !has_current_song ==> r is None,
{
    if has_current_song {
        Some(requested)
    } else {
        None
    }
}

/// What follows the end of a request to set the favorite flag.
#[derive(Debug, PartialEq, Eq)]
pub struct FavoriteOutcome {
    /// The song's favorite flag afterwards.
    pub favorite: bool,
    /// Whether the favorites are fetched again from the server.
    pub refresh_favorites: bool,
    /// Whether the failure is logged.
    pub log_failure: bool,
}

/// The outcome of a favorite request for `requested`, sent while the flag was
/// already set to it. When the player is gone by the time the answer comes,
/// nothing more happens; otherwise success refreshes the favorites and keeps
/// the flag, and failure is logged and rolls the flag back.
pub open spec fn favorite_outcome(requested: bool, succeeded: bool, player_alive: bool) -> FavoriteOutcome {
    if !player_alive {
        FavoriteOutcome { favorite: requested, refresh_favorites: false, log_failure: false }
    } else if succeeded {
        FavoriteOutcome { favorite: requested, refresh_favorites: true, log_failure: false }
    } else {
        FavoriteOutcome { favorite: !requested, refresh_favorites: false, log_failure: true }
    }
}

/// The outcome of a favorite request once it has ended.
pub fn favorite_toggle_outcome(requested: bool, succeeded: bool, player_alive: bool) -> (r:
    FavoriteOutcome)
    ensures
        r == favorite_outcome(requested, succeeded, player_alive),
        player_alive ==> r.favorite == (if succeeded {
            requested
        } else {
            !requested
        }) && r.refresh_favorites == succeeded && r.log_failure == !succeeded,
        !player_alive ==> r.favorite == requested && !r.refresh_favorites && !r.log_failure,
{
    if !player_alive {
        FavoriteOutcome { favorite: requested, refresh_favorites: false, log_failure: false }
    } else if succeeded {
        FavoriteOutcome { favorite: requested, refresh_favorites: true, log_failure: false }
    } else {
        FavoriteOutcome { favorite: !requested, refresh_favorites: false, log_failure: true }
    }
}

/// A toggle of a song's favorite flag: when the server refuses it, the flag
/// ends as it was before the click and the favorites are not refreshed; when
/// the server accepts it, the flag stays toggled and the favorites are
/// refreshed.
pub proof fn lemma_favorite_toggle(previous: bool)
    ensures
        favorite_outcome(!previous, false, true).favorite == previous,
        !favorite_outcome(!previous, false, true).refresh_favorites,
        favorite_outcome(!previous, true, true).favorite == !previous,
        favorite_outcome(!previous, true, true).refresh_favorites,
{
}

/// The context menu of the song in the player bar: every entry but removal
/// from a playlist, with actions named `song.*`.
pub fn player_menu_actions() -> (r: ContextActions)
    ensures
        !r.can_remove_from_playlist,
        !r.in_queue,
        r.action_prefix@ == "song"@,
        r.go_to_artist,
        r.go_to_album,
        r.show_info_dialog,
{
    ContextActions {
        can_remove_from_playlist: false,
        in_queue: false,
        action_prefix: String::from_str("song"),
        go_to_artist: true,
        go_to_album: true,
        show_info_dialog: true,
    }
}

/// The actions that the player bar installs for its song menu. Adding the
/// song to a playlist carries the id of the chosen playlist.
#[derive(Debug, PartialEq, Eq)]
pub enum PlayerAction {
    AddToPlaylist(String),
    QueueNext,
    QueueLast,
    InstantMix,
    GoToAlbum,
    GoToArtist,
    AddToPlaylistDialog,
    ShowInfoDialog,
}

/// The name under which the player bar installs an action.
pub open spec fn action_name(a: PlayerAction) -> Seq<char> {
    match a {
        PlayerAction::AddToPlaylist(_) => "song.add_to_playlist"@,
        PlayerAction::QueueNext => "song.queue_next"@,
        PlayerAction::QueueLast => "song.queue_last"@,
        PlayerAction::InstantMix => "song.instant_mix"@,
        PlayerAction::GoToAlbum => "song.go_to_album"@,
        PlayerAction::GoToArtist => "song.go_to_artist"@,
        PlayerAction::AddToPlaylistDialog => "song.add_to_playlist_dialog"@,
        PlayerAction::ShowInfoDialog => "song.show_info_dialog"@,
    }
}

/// What activating the action `name` with this parameter does. Only the
/// add-to-playlist action takes a parameter, the playlist id as a string; it
/// does nothing without one. The other actions take no parameter.
pub open spec fn resolved_action(name: Seq<char>, parameter: Option<String>) -> Option<PlayerAction> {
    if name == "song.add_to_playlist"@ {
        match parameter {
            Some(id) => Some(PlayerAction::AddToPlaylist(id)),
            None => None,
        }
    } else if name == "song.queue_next"@ {
        Some(PlayerAction::QueueNext)
    } else if name == "song.queue_last"@ {
        Some(PlayerAction::QueueLast)
    } else if name == "song.instant_mix"@ {
        Some(PlayerAction::InstantMix)
    } else if name == "song.go_to_album"@ {
        Some(PlayerAction::GoToAlbum)
    } else if name == "song.go_to_artist"@ {
        Some(PlayerAction::GoToArtist)
    } else if name == "song.add_to_playlist_dialog"@ {
        Some(PlayerAction::AddToPlaylistDialog)
    } else if name == "song.show_info_dialog"@ {
        Some(PlayerAction::ShowInfoDialog)
    } else {
        None
    }
}

fn name_is(name: &String, literal: &str) -> (r: bool)
    ensures
        r == (name@ == literal@),
{
    *name == String::from_str(literal)
}

/// The add-to-playlist action for its parameter: adding to the playlist with
/// that id when a string is given, nothing otherwise.
pub fn add_to_playlist_action(parameter: Option<String>) -> (r: Option<PlayerAction>)
    ensures
        match parameter {
            Some(id) => r == Some(PlayerAction::AddToPlaylist(id)),
            None => r is None,
        },
{
    match parameter {
        Some(id) => Some(PlayerAction::AddToPlaylist(id)),
        None => None,
    }
}

/// The installed action that activating `name` with `parameter` triggers, if
/// any (a parameter that is not a string is passed as `None`).
pub fn player_action(name: &str, parameter: Option<String>) -> (r: Option<PlayerAction>)
    ensures
        r == resolved_action(name@, parameter),
        r matches Some(a) ==> action_name(a) == name@,
{
    let n = String::from_str(name);
    if name_is(&n, "song.add_to_playlist") {
        add_to_playlist_action(parameter)
    } else if name_is(&n, "song.queue_next") {
        Some(PlayerAction::QueueNext)
    } else if name_is(&n, "song.queue_last") {
        Some(PlayerAction::QueueLast)
    } else if name_is(&n, "song.instant_mix") {
        Some(PlayerAction::InstantMix)
    } else if name_is(&n, "song.go_to_album") {
        Some(PlayerAction::GoToAlbum)
    } else if name_is(&n, "song.go_to_artist") {
        Some(PlayerAction::GoToArtist)
    } else if name_is(&n, "song.add_to_playlist_dialog") {
        Some(PlayerAction::AddToPlaylistDialog)
    } else if name_is(&n, "song.show_info_dialog") {
        Some(PlayerAction::ShowInfoDialog)
    } else {
        None
    }
}

/// Every entry of the player bar's song menu triggers an action that the
/// player bar installs, and the one its label names: queue next, queue last,
/// instant mix, the add-to-playlist dialog, go to album, go to artist, and
/// the song's information.
pub proof fn lemma_player_menu_actions_installed(c: ContextActions, i: int, j: int)
    requires
        !c.can_remove_from_playlist,
        !c.in_queue,
        c.action_prefix@ == "song"@,
        c.go_to_artist,
        c.go_to_album,
        c.show_info_dialog,
        0 <= i < menu_spec(c).len(),
        0 <= j < menu_spec(c)[i].len(),
    ensures
        exists|a: PlayerAction| #[trigger] action_name(a) == menu_spec(c)[i][j].1,
        resolved_action(menu_spec(c)[i][j].1, None) is Some,
        ({
            let e = menu_spec(c)[i][j];
            let r = resolved_action(e.1, None);
            ||| e.0 == "Queue Next"@ && r == Some(PlayerAction::QueueNext)
            ||| e.0 == "Queue Last"@ && r == Some(PlayerAction::QueueLast)
            ||| e.0 == "Instant Mix"@ && r == Some(PlayerAction::InstantMix)
            ||| e.0 == "Add to Playlist"@ && r == Some(PlayerAction::AddToPlaylistDialog)
            ||| e.0 == "Go to Album"@ && r == Some(PlayerAction::GoToAlbum)
            ||| e.0 == "Go to Artist"@ && r == Some(PlayerAction::GoToArtist)
            ||| e.0 == "Song Info"@ && r == Some(PlayerAction::ShowInfoDialog)
        }),
{
    reveal_strlit("song");
    reveal_strlit(".queue_next");
    reveal_strlit(".queue_last");
    reveal_strlit(".instant_mix");
    reveal_strlit(".add_to_playlist_dialog");
    reveal_strlit(".go_to_album");
    reveal_strlit(".go_to_artist");
    reveal_strlit(".show_info_dialog");
    reveal_strlit("song.queue_next");
    reveal_strlit("song.queue_last");
    reveal_strlit("song.instant_mix");
    reveal_strlit("song.add_to_playlist_dialog");
    reveal_strlit("song.go_to_album");
    reveal_strlit("song.go_to_artist");
    reveal_strlit("song.show_info_dialog");
    reveal_strlit("song.add_to_playlist");
    let p = c.action_prefix@;
    let m = menu_spec(c);
    let action = m[i][j].1;
    assert(m =~= seq![queue_section(p), playlist_section(c), navigation_section(c), other_section(c)]);
    if i == 0 {
        assert(queue_section(p) =~= seq![
            entry("Queue Next"@, p, ".queue_next"@),
            entry("Queue Last"@, p, ".queue_last"@),
            entry("Instant Mix"@, p, ".instant_mix"@),
        ]);
        if j == 0 {
            assert(action =~= action_name(PlayerAction::QueueNext));
            assert(resolved_action(action, None) == Some(PlayerAction::QueueNext));
        } else if j == 1 {
            assert(action =~= action_name(PlayerAction::QueueLast));
            assert("song.queue_last"@[11] != "song.queue_next"@[11]);
            assert(resolved_action(action, None) == Some(PlayerAction::QueueLast));
        } else {
            assert(action =~= action_name(PlayerAction::InstantMix));
            assert(resolved_action(action, None) == Some(PlayerAction::InstantMix));
        }
    } else if i == 1 {
        assert(playlist_section(c) =~= seq![entry("Add to Playlist"@, p, ".add_to_playlist_dialog"@)]);
        assert(action =~= action_name(PlayerAction::AddToPlaylistDialog));
            assert(resolved_action(action, None) == Some(PlayerAction::AddToPlaylistDialog));
    } else if i == 2 {
        assert(navigation_section(c) =~= seq![
            entry("Go to Album"@, p, ".go_to_album"@),
            entry("Go to Artist"@, p, ".go_to_artist"@),
        ]);
        if j == 0 {
            assert(action =~= action_name(PlayerAction::GoToAlbum));
            assert("song.go_to_album"@[5] != "song.instant_mix"@[5]);
            assert(resolved_action(action, None) == Some(PlayerAction::GoToAlbum));
        } else {
            assert(action =~= action_name(PlayerAction::GoToArtist));
            assert(resolved_action(action, None) == Some(PlayerAction::GoToArtist));
        }
    } else {
        assert(action =~= action_name(PlayerAction::ShowInfoDialog));
            assert(resolved_action(action, None) == Some(PlayerAction::ShowInfoDialog));
    }
}

/// What follows a request to add the current song to a playlist: the toast
/// (an untranslated message) and whether the playlists are refreshed.
#[derive(Debug, PartialEq, Eq)]
pub struct AddToPlaylistOutcome {
    pub toast: &'static str,
    pub refresh_playlists: bool,
}

/// On success the user is told and the playlists are refreshed; on failure
/// the user is told and nothing is refreshed.
pub fn add_to_playlist_outcome(result: &Result<(), BackendError>) -> (r: AddToPlaylistOutcome)
    ensures
        result is Ok ==> r.toast@ == "Added song to playlist"@ && r.refresh_playlists,
        result is Err ==> r.toast@ == "Failed to add song to playlist"@ && !r.refresh_playlists,
{
    match result {
        Ok(()) => AddToPlaylistOutcome { toast: "Added song to playlist", refresh_playlists: true },
        Err(_) => AddToPlaylistOutcome {
            toast: "Failed to add song to playlist",
            refresh_playlists: false,
        },
    }
}

/// The clock text determines the duration: two different durations are never
/// rendered alike, and the text splits at the colon into the minutes and the
/// two-digit seconds.
pub proof fn lemma_clock_text_injective(a: nat, b: nat)
    requires
        clock_text(a) == clock_text(b),
    ensures
        a == b,
{
    let ma = decimal(a / 60);
    let mb = decimal(b / 60);
    lemma_decimal_is_digits(a / 60);
    lemma_decimal_is_digits(b / 60);
    let ta = clock_text(a);
    // the colon sits three characters from the end in both texts
    assert(ta.len() == ma.len() + 3);
    assert(clock_text(b).len() == mb.len() + 3);
    assert(ma.len() == mb.len());
    assert forall|i: int| 0 <= i < ma.len() implies ma[i] == mb[i] by {
        assert(ta[i] == ma[i]);
        assert(clock_text(b)[i] == mb[i]);
    }
    assert(ma =~= mb);
    lemma_decimal_injective(a / 60, b / 60);
    assert(ta[ma.len() + 1int] == digit_char((a % 60) / 10));
    assert(clock_text(b)[mb.len() + 1int] == digit_char((b % 60) / 10));
    assert(ta[ma.len() + 2int] == digit_char((a % 60) % 10));
    assert(clock_text(b)[mb.len() + 2int] == digit_char((b % 60) % 10));
}

/// The clock text reads back to the duration: the minutes, in decimal digits
/// without a leading zero, come before the only colon, which is followed by
/// exactly two digits for the seconds below 60, and minutes times 60 plus
/// seconds is the duration.
pub proof fn lemma_clock_text_reads_back(seconds: nat)
    ensures
        clock_text(seconds).len() >= 4,
        clock_text(seconds)[clock_text(seconds).len() - 3] == ':',
        forall|i: int|
            0 <= i < clock_text(seconds).len() && i != clock_text(seconds).len() - 3 ==> '0'
                <= #[trigger] clock_text(seconds)[i] <= '9',
        clock_text(seconds).len() == 4 || clock_text(seconds)[0] != '0',
        digits_value(clock_text(seconds).skip(clock_text(seconds).len() - 2)) < 60,
        digits_value(clock_text(seconds).take(clock_text(seconds).len() - 3)) * 60 + digits_value(
            clock_text(seconds).skip(clock_text(seconds).len() - 2),
        ) == seconds,
{
    let m = seconds / 60;
    let r = seconds % 60;
    let t = clock_text(seconds);
    let md = decimal(m);
    lemma_decimal_is_digits(m);
    lemma_decimal_value(m);
    lemma_decimal_no_leading_zero(m);
    assert(t.len() == md.len() + 3);
    assert(t.take(t.len() - 3) =~= md);
    let sd = t.skip(t.len() - 2);
    assert(sd =~= two_digits(r));
    assert(digit_char(r / 10) as int == 48 + r / 10);
    assert(digit_char(r % 10) as int == 48 + r % 10);
    assert(sd.drop_last() =~= seq![digit_char(r / 10)]);
    let one = sd.drop_last();
    assert(one.drop_last() =~= Seq::<char>::empty());
    assert(digits_value(one.drop_last()) == 0);
    assert(one.last() == digit_char(r / 10));
    assert(digits_value(one) == digits_value(one.drop_last()) * 10 + (one.last() as int - 48));
    assert(digits_value(one) == r / 10);
    assert(sd.last() == digit_char(r % 10));
    assert(digits_value(sd) == (r / 10) * 10 + r % 10);
    assert forall|i: int| 0 <= i < t.len() && i != t.len() - 3 implies '0' <= #[trigger] t[i] <= '9' by {
        if i < md.len() {
            assert(t[i] == md[i]);
        }
    }
    if md.len() > 1 {
        assert(t[0] == md[0]);
    }
}

/// A joined list reads from its first item: the first item, then the
/// separator and the rest joined, so the items appear in their order with one
/// separator between neighbours.
pub proof fn lemma_joined_front(list: Seq<Seq<char>>, sep: Seq<char>)
    requires
        list.len() >= 1,
    ensures
        list.len() == 1 ==> joined(list, sep) == list[0],
        list.len() >= 2 ==> joined(list, sep) == list[0] + sep + joined(list.drop_first(), sep),
    decreases list.len(),
{
    if list.len() == 2 {
        assert(list.drop_last() =~= seq![list[0]]);
        assert(list.drop_first() =~= seq![list[1]]);
        assert(joined(list.drop_first(), sep) == list[1]);
        assert(joined(list.drop_last(), sep) == list[0]);
        assert(joined(list, sep) =~= list[0] + sep + list[1]);
    } else if list.len() > 2 {
        let dl = list.drop_last();
        lemma_joined_front(dl, sep);
        let tail = list.drop_first();
        assert(tail.drop_last() =~= dl.drop_first());
        assert(tail.last() == list.last());
        assert(joined(tail, sep) == joined(tail.drop_last(), sep) + sep + tail.last());
        assert(joined(list, sep) =~= list[0] + sep + joined(tail, sep));
    }
}

} // verus!
