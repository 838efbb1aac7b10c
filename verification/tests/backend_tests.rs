use music_client::backend::{Backend, Jellyfin, Subsonic};

fn jellyfin(token: Option<&str>) -> Backend {
    Backend::Jellyfin(Jellyfin {
        host: "https://jf.example".to_string(),
        access_token: token.map(|t| t.to_string()),
    })
}

fn subsonic(auth: Option<&str>) -> Backend {
    Backend::Subsonic(Subsonic {
        host: "https://sub.example".to_string(),
        auth_query: auth.map(|t| t.to_string()),
    })
}

#[test]
fn authentication_follows_session() {
    assert!(jellyfin(Some("tok")).is_authenticated());
    assert!(!jellyfin(None).is_authenticated());
    assert!(subsonic(Some("u=a&t=b&s=c")).is_authenticated());
    assert!(!subsonic(None).is_authenticated());
}

#[test]
fn jellyfin_stream_uri() {
    assert_eq!(
        jellyfin(Some("tok")).get_stream_uri("abc"),
        "https://jf.example/Audio/abc/universal?api_key=tok"
    );
    assert_eq!(
        jellyfin(None).get_stream_uri("abc"),
        "https://jf.example/Audio/abc/universal?api_key="
    );
}

#[test]
fn subsonic_stream_uri() {
    assert_eq!(
        subsonic(Some("u=a&t=b&s=c")).get_stream_uri("42"),
        "https://sub.example/rest/stream?id=42&u=a&t=b&s=c"
    );
    assert_eq!(
        subsonic(None).get_stream_uri("42"),
        "https://sub.example/rest/stream?id=42"
    );
}

#[test]
fn different_items_different_uris() {
    let b = jellyfin(Some("tok"));
    assert_ne!(b.get_stream_uri("a"), b.get_stream_uri("b"));
    let s = subsonic(Some("x"));
    assert_ne!(s.get_stream_uri("1"), s.get_stream_uri("12"));
}

#[test]
fn default_backend_is_unauthenticated_jellyfin() {
    let b = Backend::default();
    assert!(matches!(&b, Backend::Jellyfin(j) if j.host.is_empty() && j.access_token.is_none()));
    assert!(!b.is_authenticated());
}
