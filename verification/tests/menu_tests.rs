use music_client::backend::BackendError;
use music_client::library::{MusicDto, PlaylistItems};
use music_client::ui::music_context_menu::{
    add_to_playlist_dialog_content, duplicate_song_dialog, chosen_playlist, create_menu_model, dup_check_outcome, is_add_response, playlist_contains,
    playlist_names, ContextActions, DupCheckOutcome, MenuSection, PlaylistDto,
};

fn view(menu: &[MenuSection]) -> Vec<Vec<(String, String)>> {
    menu.iter()
        .map(|s| s.items.iter().map(|i| (i.label.clone(), i.action.clone())).collect())
        .collect()
}

fn pair(l: &str, a: &str) -> (String, String) {
    (l.to_string(), a.to_string())
}

#[test]
fn song_menu_outside_queue() {
    let c = ContextActions {
        can_remove_from_playlist: true,
        in_queue: false,
        action_prefix: "song".to_string(),
        go_to_artist: true,
        go_to_album: true,
        show_info_dialog: true,
    };
    let m = view(&create_menu_model(&c));
    assert_eq!(
        m,
        vec![
            vec![
                pair("Queue Next", "song.queue_next"),
                pair("Queue Last", "song.queue_last"),
                pair("Instant Mix", "song.instant_mix"),
            ],
            vec![
                pair("Add to Playlist", "song.add_to_playlist_dialog"),
                pair("Remove from Playlist", "song.remove_playlist"),
            ],
            vec![pair("Go to Album", "song.go_to_album"), pair("Go to Artist", "song.go_to_artist")],
            vec![pair("Song Info", "song.show_info_dialog")],
        ]
    );
}

#[test]
fn album_menu_in_queue() {
    let c = ContextActions {
        can_remove_from_playlist: false,
        in_queue: true,
        action_prefix: "album".to_string(),
        go_to_artist: false,
        go_to_album: false,
        show_info_dialog: false,
    };
    let m = view(&create_menu_model(&c));
    assert_eq!(
        m,
        vec![
            vec![pair("Add to Playlist", "album.add_to_playlist_dialog")],
            vec![],
            vec![pair("Copy ID", "album.copy_id")],
        ]
    );
}

#[test]
fn album_menu_has_no_instant_mix() {
    let c = ContextActions {
        can_remove_from_playlist: false,
        in_queue: false,
        action_prefix: "album".to_string(),
        go_to_artist: true,
        go_to_album: false,
        show_info_dialog: false,
    };
    let m = view(&create_menu_model(&c));
    assert_eq!(m[0], vec![pair("Queue Next", "album.queue_next"), pair("Queue Last", "album.queue_last")]);
    assert_eq!(m[2], vec![pair("Go to Artist", "album.go_to_artist")]);
    for section in &m {
        for (_, action) in section {
            assert!(action.starts_with("album."));
        }
    }
}

fn playlists() -> Vec<PlaylistDto> {
    vec![
        PlaylistDto { id: "p1".to_string(), name: "Morning".to_string() },
        PlaylistDto { id: "p2".to_string(), name: "Evening".to_string() },
    ]
}

#[test]
fn dialog_lists_names() {
    assert_eq!(playlist_names(&playlists()), vec!["Morning", "Evening"]);
    assert!(playlist_names(&vec![]).is_empty());
}

#[test]
fn dialog_choice() {
    let p = playlists();
    assert_eq!(chosen_playlist(&p, "add", 1), Some("p2".to_string()));
    assert_eq!(chosen_playlist(&p, "add", 0), Some("p1".to_string()));
    assert_eq!(chosen_playlist(&p, "add", 2), None);
    assert_eq!(chosen_playlist(&p, "cancel", 0), None);
    assert!(is_add_response("add"));
    assert!(!is_add_response("cancel"));
    assert!(!is_add_response("Add"));
}

fn items(ids: &[&str]) -> PlaylistItems {
    PlaylistItems {
        items: ids
            .iter()
            .map(|id| MusicDto {
                id: id.to_string(),
                name: String::new(),
                album_id: String::new(),
                artist_id: String::new(),
            })
            .collect(),
    }
}

#[test]
fn duplicate_detection() {
    assert!(playlist_contains(&items(&["a", "b"]), "b"));
    assert!(!playlist_contains(&items(&["a", "b"]), "c"));
    assert!(!playlist_contains(&items(&[]), "a"));
}

#[test]
fn duplicate_check_outcomes() {
    assert_eq!(dup_check_outcome(&Ok(true)), DupCheckOutcome::AskUser);
    assert_eq!(dup_check_outcome(&Ok(false)), DupCheckOutcome::AddNow);
    let errors = vec![
        BackendError::Transport("timeout".to_string()),
        BackendError::Http { status: 500, message: "boom".to_string() },
        BackendError::AuthenticationFailed { message: "no".to_string() },
        BackendError::JsonParsing("eof".to_string()),
    ];
    for e in errors {
        assert_eq!(dup_check_outcome(&Err(e)), DupCheckOutcome::AddNow);
    }
}

#[test]
fn playlist_dialog_with_playlists() {
    let d = add_to_playlist_dialog_content(&playlists());
    assert_eq!(d.buttons.heading, "Add to Playlist");
    assert_eq!(d.buttons.confirm_label, "Add");
    assert_eq!(d.buttons.cancel_label, "Cancel");
    assert_eq!(d.buttons.default_response, "add");
    assert_eq!(d.buttons.close_response, "cancel");
    assert!(d.offers_add);
    assert_eq!(d.names, vec!["Morning", "Evening"]);
    assert_eq!(d.body, None);
    assert!(d.add_suggested && d.search_enabled && d.substring_search);
}

#[test]
fn playlist_dialog_without_playlists() {
    let d = add_to_playlist_dialog_content(&vec![]);
    assert!(!d.offers_add);
    assert!(d.names.is_empty());
    assert_eq!(d.body, Some("No playlists available. Please create a playlist first."));
    assert!(!d.search_enabled);
}

#[test]
fn duplicate_dialog_texts() {
    let d = duplicate_song_dialog();
    assert_eq!(d.heading, "Song already in playlist");
    assert_eq!(d.cancel_label, "Cancel");
    assert_eq!(d.confirm_label, "Add Anyway");
    assert_eq!(d.default_response, "add");
    assert_eq!(d.close_response, "cancel");
}
