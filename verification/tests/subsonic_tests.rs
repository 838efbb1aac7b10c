use music_client::subsonic::api::{id_string, keep_parsed, JsonId, SubsonicResponse};

fn response(status: &str) -> SubsonicResponse {
    SubsonicResponse {
        status: status.to_string(),
        error: None,
        music_folders: None,
        album_list2: None,
        album: None,
        playlists: None,
        playlist: None,
        song: None,
        lyrics_list: None,
        starred2: None,
        similar_songs2: None,
    }
}

#[test]
fn status_ok_ignores_ascii_case() {
    for s in ["ok", "OK", "Ok", "oK"] {
        assert!(response(s).is_ok(), "{s}");
    }
    for s in ["failed", "", "o", "okay", " ok", "ök"] {
        assert!(!response(s).is_ok(), "{s}");
    }
}

#[test]
fn ids_from_text_and_numbers() {
    assert_eq!(id_string(JsonId::Text("al-12".to_string())).unwrap(), "al-12");
    assert_eq!(id_string(JsonId::Unsigned(305)).unwrap(), "305");
    assert_eq!(id_string(JsonId::Signed(-7)).unwrap(), "-7");
    assert_eq!(id_string(JsonId::Signed(7)).unwrap(), "7");
}

#[test]
fn other_ids_are_errors() {
    let err = id_string(JsonId::Other).unwrap_err();
    assert_eq!(err.message(), "expected music folder id as string or integer");
}

#[test]
fn malformed_items_are_skipped() {
    assert_eq!(keep_parsed(vec![Some(1), None, Some(3), None]), vec![1, 3]);
    assert_eq!(keep_parsed::<u8>(vec![None, None]), Vec::<u8>::new());
    assert_eq!(keep_parsed(vec![Some("a"), Some("b")]), vec!["a", "b"]);
    assert_eq!(keep_parsed::<u8>(vec![]), Vec::<u8>::new());
}
