use music_client::backend::BackendError;
use music_client::ui::music_context_menu::create_menu_model;
use music_client::ui::player_bar::common::{
    add_to_playlist_outcome, artist_line, favorite_icon, favorite_toggle_outcome,
    favorite_binding_update, favorite_toggle_start, lyrics_closed, play_pause_look,
    player_action, add_to_playlist_action, player_menu_actions, show_lyrics_step,
    song_info_update, CurrentSong, FavoriteBinding, LyricsAction, LyricsWindow, PlayerAction,
};
use music_client::ui::player_bar::position::{
    duration_updates, position_updates, seek_step, BarUpdate, SeekDebounce, SeekEvent,
};

#[test]
fn play_pause_button() {
    let playing = play_pause_look(true);
    assert_eq!(playing.icon, "media-playback-pause-symbolic");
    assert_eq!(playing.tooltip, "Pause");
    let paused = play_pause_look(false);
    assert_eq!(paused.icon, "media-playback-start-symbolic");
    assert_eq!(paused.tooltip, "Play");
}

#[test]
fn favorite_button_icon() {
    assert_eq!(favorite_icon(true), "starred-symbolic");
    assert_eq!(favorite_icon(false), "non-starred-symbolic");
}

#[test]
fn artist_line_joins() {
    assert_eq!(artist_line(&vec![]), None);
    assert_eq!(artist_line(&vec!["A".to_string()]), Some("A".to_string()));
    assert_eq!(
        artist_line(&vec!["A".to_string(), "B".to_string(), "C".to_string()]),
        Some("A, B, C".to_string())
    );
}

#[test]
fn favorite_rolls_back_on_failure() {
    for previous in [false, true] {
        let requested = !previous;
        assert_eq!(favorite_toggle_start(true, requested), Some(requested));
        let failed = favorite_toggle_outcome(requested, false, true);
        assert_eq!(failed.favorite, previous);
        assert!(!failed.refresh_favorites);
        assert!(failed.log_failure);
        let ok = favorite_toggle_outcome(requested, true, true);
        assert_eq!(ok.favorite, requested);
        assert!(ok.refresh_favorites);
        assert!(!ok.log_failure);
    }
}

#[test]
fn favorite_without_song_or_player() {
    assert_eq!(favorite_toggle_start(false, true), None);
    let gone = favorite_toggle_outcome(true, false, false);
    assert!(gone.favorite);
    assert!(!gone.refresh_favorites);
    assert!(!gone.log_failure);
}

#[test]
fn seek_is_debounced() {
    let mut state = SeekDebounce { pending: None };
    let first = seek_step(&mut state, SeekEvent::Drag(75));
    assert!(!first.cancel_timer);
    assert_eq!(first.label.as_deref(), Some("1:15"));
    assert_eq!(first.schedule_ms, Some(150));
    assert_eq!(first.seek_to, None);
    let again = seek_step(&mut state, SeekEvent::Drag(80));
    assert!(again.cancel_timer);
    assert_eq!(again.label.as_deref(), Some("1:20"));
    assert_eq!(state.pending, Some(80));
    let fired = seek_step(&mut state, SeekEvent::TimerFired);
    assert_eq!(fired.seek_to, Some(80));
    assert!(fired.sync_scale);
    assert_eq!(state.pending, None);
    let idle = seek_step(&mut state, SeekEvent::TimerFired);
    assert_eq!(idle.seek_to, None);
    assert!(!idle.sync_scale);
}

#[test]
fn drag_burst_seeks_once_to_last() {
    let mut state = SeekDebounce { pending: None };
    let mut seeks = Vec::new();
    for p in [3u32, 10, 42, 7, 99] {
        if let Some(s) = seek_step(&mut state, SeekEvent::Drag(p)).seek_to {
            seeks.push(s);
        }
    }
    if let Some(s) = seek_step(&mut state, SeekEvent::TimerFired).seek_to {
        seeks.push(s);
    }
    assert_eq!(seeks, vec![99]);
    assert_eq!(state.pending, None);
}

#[test]
fn position_and_duration_updates_in_order() {
    assert_eq!(
        position_updates(65, 200),
        vec![
            BarUpdate::SetPositionLabel("1:05".to_string()),
            BarUpdate::SetScaleValue(65),
            BarUpdate::ExtraPositionUpdate(65),
        ]
    );
    assert_eq!(
        position_updates(0, 0),
        vec![BarUpdate::SetPositionLabel("0:00".to_string()), BarUpdate::ExtraPositionUpdate(0)]
    );
    assert_eq!(
        duration_updates(245),
        vec![
            BarUpdate::SetDurationLabel("4:05".to_string()),
            BarUpdate::SetScaleUpper(245),
            BarUpdate::ExtraDurationUpdate(245),
        ]
    );
    assert_eq!(
        duration_updates(0),
        vec![BarUpdate::SetDurationLabel("0:00".to_string()), BarUpdate::ExtraDurationUpdate(0)]
    );
}

#[test]
fn song_info_with_and_without_song() {
    let song = CurrentSong { id: "s1".to_string(), album_id: "a1".to_string(), has_lyrics: true };
    let u = song_info_update(&vec!["A".to_string(), "B".to_string()], Some(&song));
    assert_eq!(u.artist_line, Some("A, B".to_string()));
    assert_eq!(u.lyrics_sensitive, Some(true));
    assert_eq!(u.album_art, Some(("s1".to_string(), "a1".to_string())));
    assert!(u.renew_favorite_binding);
    let none = song_info_update(&vec![], None);
    assert_eq!(none.artist_line, None);
    assert_eq!(none.lyrics_sensitive, None);
    assert_eq!(none.album_art, None);
    assert!(none.renew_favorite_binding);
}

#[test]
fn favorite_binding_follows_song() {
    assert_eq!(favorite_binding_update(true), FavoriteBinding::Bind);
    assert_eq!(favorite_binding_update(false), FavoriteBinding::Clear { icon: "non-starred-symbolic" });
}

#[test]
fn one_lyrics_window_at_most() {
    let mut w = LyricsWindow { open: false };
    assert_eq!(show_lyrics_step(&mut w), LyricsAction::CreateNew);
    assert_eq!(show_lyrics_step(&mut w), LyricsAction::PresentExisting);
    lyrics_closed(&mut w);
    assert!(!w.open);
    assert_eq!(show_lyrics_step(&mut w), LyricsAction::CreateNew);
}

#[test]
fn player_menu_settings() {
    let c = player_menu_actions();
    assert!(!c.can_remove_from_playlist);
    assert!(!c.in_queue);
    assert_eq!(c.action_prefix, "song");
    assert!(c.go_to_artist && c.go_to_album && c.show_info_dialog);
}

#[test]
fn action_names_resolve() {
    assert_eq!(player_action("song.queue_next", None), Some(PlayerAction::QueueNext));
    assert_eq!(player_action("song.show_info_dialog", None), Some(PlayerAction::ShowInfoDialog));
    assert_eq!(player_action("song.copy_id", None), None);
    assert_eq!(player_action("album.queue_next", None), None);
}

#[test]
fn add_to_playlist_carries_playlist_id() {
    assert_eq!(
        player_action("song.add_to_playlist", Some("p7".to_string())),
        Some(PlayerAction::AddToPlaylist("p7".to_string()))
    );
    assert_eq!(player_action("song.add_to_playlist", None), None);
    assert_eq!(
        add_to_playlist_action(Some("p1".to_string())),
        Some(PlayerAction::AddToPlaylist("p1".to_string()))
    );
    assert_eq!(add_to_playlist_action(None), None);
}

#[test]
fn every_player_menu_entry_is_installed() {
    let menu = create_menu_model(&player_menu_actions());
    let mut count = 0;
    for section in &menu {
        for item in &section.items {
            assert!(player_action(&item.action, None).is_some(), "{}", item.action);
            count += 1;
        }
    }
    assert_eq!(count, 7);
}

#[test]
fn add_to_playlist_toasts() {
    let ok = add_to_playlist_outcome(&Ok(()));
    assert_eq!(ok.toast, "Added song to playlist");
    assert!(ok.refresh_playlists);
    let err = add_to_playlist_outcome(&Err(BackendError::Transport("down".to_string())));
    assert_eq!(err.toast, "Failed to add song to playlist");
    assert!(!err.refresh_playlists);
}
