use music_client::backend::BackendError;
use music_client::library::{Library, MusicDto, PlaylistItems, SongModel};
use music_client::library_utils::{
    instant_mix, instant_mix_after, playlist_songs_after, play_album, play_artist, play_song, playlist_songs, playlist_source,
    similar_songs_request, PlaylistSource,
};

fn song(id: &str, album: &str, artist: &str, favorite: bool) -> SongModel {
    SongModel {
        id: id.to_string(),
        title: format!("Title {id}"),
        album_id: album.to_string(),
        artist_id: artist.to_string(),
        favorite,
    }
}

fn dto(id: &str) -> MusicDto {
    MusicDto {
        id: id.to_string(),
        name: format!("Name {id}"),
        album_id: "alb".to_string(),
        artist_id: "art".to_string(),
    }
}

fn library() -> Library {
    Library {
        songs: vec![
            song("s1", "a1", "r1", false),
            song("s2", "a2", "r1", true),
            song("s3", "a1", "r2", false),
            song("s4", "a1", "r1", true),
        ],
    }
}

fn ids(songs: &[SongModel]) -> Vec<&str> {
    songs.iter().map(|s| s.id.as_str()).collect()
}

#[test]
fn album_songs_in_library_order() {
    let lib = library();
    let q = play_album("a1", &lib);
    assert_eq!(ids(&q.songs), vec!["s1", "s3", "s4"]);
    assert_eq!(q.start_index, 0);
    assert!(!q.seeded);
    assert!(play_album("none", &lib).songs.is_empty());
}

#[test]
fn artist_songs_in_library_order() {
    let lib = library();
    let q = play_artist("r1", &lib);
    assert_eq!(ids(&q.songs), vec!["s1", "s2", "s4"]);
    assert_eq!(q.start_index, 0);
    assert!(!q.seeded);
}

#[test]
fn single_song_queue() {
    let lib = library();
    let q = play_song("s3", &lib).unwrap();
    assert_eq!(q.songs, vec![song("s3", "a1", "r2", false)]);
    assert!(q.seeded);
    assert_eq!(q.start_index, 0);
    assert!(play_song("missing", &lib).is_none());
}

#[test]
fn favorites_come_from_library() {
    let lib = library();
    assert!(lib.song_is_favorite("s2"));
    assert!(!lib.song_is_favorite("s1"));
    assert!(!lib.song_is_favorite("other"));
}

#[test]
fn playlist_songs_take_favorite_flags() {
    let lib = library();
    let items = PlaylistItems { items: vec![dto("s2"), dto("x"), dto("s1")] };
    let songs = playlist_songs(&items, &lib);
    assert_eq!(ids(&songs), vec!["s2", "x", "s1"]);
    assert_eq!(songs.iter().map(|s| s.favorite).collect::<Vec<_>>(), vec![true, false, false]);
    assert_eq!(songs[0].title, "Name s2");
}

#[test]
fn instant_mix_seed_first_and_once() {
    let lib = library();
    let similar = PlaylistItems { items: vec![dto("s4"), dto("s1"), dto("n1"), dto("s1")] };
    let q = instant_mix("s1", &lib, &similar);
    assert_eq!(ids(&q.songs), vec!["s1", "s4", "n1"]);
    assert_eq!(q.songs[0], song("s1", "a1", "r1", false));
    assert!(q.songs[1].favorite);
    assert!(q.seeded);
    assert_eq!(q.start_index, 0);
}

#[test]
fn instant_mix_without_seed_keeps_everything() {
    let lib = library();
    let similar = PlaylistItems { items: vec![dto("z"), dto("z")] };
    let q = instant_mix("unknown", &lib, &similar);
    assert_eq!(ids(&q.songs), vec!["z", "z"]);
}

#[test]
fn all_songs_and_find() {
    let lib = library();
    assert_eq!(lib.all_songs(), lib.songs);
    assert_eq!(lib.position_of("s3"), Some(2));
    assert_eq!(lib.find("s4").unwrap().id, "s4");
    assert!(lib.find("nope").is_none());
}

#[test]
fn instant_mix_asks_for_fifty_similar_songs() {
    assert_eq!(similar_songs_request("s1"), ("s1".to_string(), 50));
}

#[test]
fn smart_playlists_stay_local() {
    assert_eq!(playlist_source(true, "p1"), PlaylistSource::Local);
    assert_eq!(playlist_source(false, "p1"), PlaylistSource::Fetch("p1".to_string()));
}

#[test]
fn failed_fetches_pass_the_error_on() {
    let lib = library();
    let err = instant_mix_after("s1", &lib, Err(BackendError::Transport("down".to_string())));
    assert_eq!(err, Err(BackendError::Transport("down".to_string())));
    let ok = instant_mix_after("s1", &lib, Ok(PlaylistItems { items: vec![dto("n1")] })).unwrap();
    assert_eq!(ids(&ok.songs), vec!["s1", "n1"]);
    let perr = playlist_songs_after(&lib, Err(BackendError::JsonParsing("eof".to_string())));
    assert_eq!(perr, Err(BackendError::JsonParsing("eof".to_string())));
    let pok = playlist_songs_after(&lib, Ok(PlaylistItems { items: vec![dto("s2")] })).unwrap();
    assert!(pok[0].favorite);
}

#[test]
fn album_and_artist_of_a_song() {
    let lib = library();
    assert_eq!(lib.album_for_item("s3"), Some("a1".to_string()));
    assert_eq!(lib.artist_for_item("s3"), Some("r2".to_string()));
    assert_eq!(lib.album_for_item("zz"), None);
    assert_eq!(lib.artist_for_item("zz"), None);
}
