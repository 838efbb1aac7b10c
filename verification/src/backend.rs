//! The two kinds of music server the client talks to, the session state kept
//! for each, and the errors that a request to either can end in.
use vstd::prelude::*;
use vstd::string::*;

verus! {

/// Why a request to a server failed.
#[derive(Debug, Clone, PartialEq, Eq)]
pub enum BackendError {
    /// The request did not get through (connection, TLS, timeout, body).
    Transport(String),
    /// The server answered with an error status.
    Http { status: u16, message: String },
    /// The server refused the credentials.
    AuthenticationFailed { message: String },
    /// The answer was not the JSON that was expected.
    JsonParsing(String),
}

/// A session with a Jellyfin server, as this library models it: the server's
/// address and the token that a login hands out.
#[derive(Debug, Clone, PartialEq, Eq)]
pub struct Jellyfin {
    /// The server's base URL, without a trailing slash.
    pub host: String,
    /// The access token, once logged in.
    pub access_token: Option<String>,
}

/// A session with a Subsonic server, as this library models it: the server's
/// address and the authentication parameters that a login computes.
#[derive(Debug, Clone, PartialEq, Eq)]
pub struct Subsonic {
    /// The server's base URL, without a trailing slash.
    pub host: String,
    /// The authentication query parameters (`u=..&t=..&s=..&v=..&c=..`), once logged in.
    pub auth_query: Option<String>,
}

/// The server the client is connected to.
#[derive(Debug, Clone, PartialEq, Eq)]
pub enum Backend {
    Jellyfin(Jellyfin),
    Subsonic(Subsonic),
}

/// The text of an optional string, empty when there is none.
pub open spec fn text_or_empty(s: Option<String>) -> Seq<char> {
    match s {
        Some(t) => t@,
        None => Seq::empty(),
    }
}

/// The URI from which a Jellyfin server streams an item. This layout (the
/// universal audio endpoint with the token as `api_key`) is this library's
/// own model of the Jellyfin session.
pub open spec fn jellyfin_stream_uri(j: Jellyfin, item_id: Seq<char>) -> Seq<char> {
    j.host@ + "/Audio/"@ + item_id + "/universal?api_key="@ + text_or_empty(j.access_token)
}

/// The URI from which a Subsonic server streams an item. This layout (the
/// `stream` endpoint with the stored authentication parameters appended) is
/// this library's own model of the Subsonic session.
pub open spec fn subsonic_stream_uri(s: Subsonic, item_id: Seq<char>) -> Seq<char> {
    s.host@ + "/rest/stream?id="@ + item_id + match s.auth_query {
        Some(q) => "&"@ + q@,
        None => Seq::empty(),
    }
}

/// Whether the backend holds a session with its server.
pub open spec fn backend_authenticated(b: Backend) -> bool {
    match b {
        Backend::Jellyfin(j) => j.access_token is Some,
        Backend::Subsonic(s) => s.auth_query is Some,
    }
}

/// The URI from which the backend's server streams an item.
pub open spec fn backend_stream_uri(b: Backend, item_id: Seq<char>) -> Seq<char> {
    match b {
        Backend::Jellyfin(j) => jellyfin_stream_uri(j, item_id),
        Backend::Subsonic(s) => subsonic_stream_uri(s, item_id),
    }
}

impl Jellyfin {
    /// Whether a login gave this session an access token.
    pub fn is_authenticated(&self) -> (r: bool)
        ensures
            r == (self.access_token is Some),
    {
        self.access_token.is_some()
    }

    /// The URI of the universal audio stream of an item, authorized by the
    /// session's token.
    pub fn get_stream_uri(&self, item_id: &str) -> (r: String)
        ensures
            r@ == jellyfin_stream_uri(*self, item_id@),
    {
        let mut s = self.host.clone();
        s.append("/Audio/");
        s.append(item_id);
        s.append("/universal?api_key=");
        match &self.access_token {
            Some(t) => s.append(t.as_str()),
            None => {},
        }
        assert(s@ =~= jellyfin_stream_uri(*self, item_id@));
        s
    }
}

impl Default for Jellyfin {
    /// A session with no server and no token.
    fn default() -> (r: Jellyfin)
        ensures
            r.host@ == Seq::<char>::empty(),
            r.access_token is None,
    {
        Jellyfin { host: String::new(), access_token: None }
    }
}

impl Subsonic {
    /// Whether a login gave this session its authentication parameters.
    pub fn is_authenticated(&self) -> (r: bool)
        ensures
            r == (self.auth_query is Some),
    {
        self.auth_query.is_some()
    }

    /// The URI of the stream endpoint for an item, with the session's
    /// authentication parameters appended.
    pub fn get_stream_uri(&self, item_id: &str) -> (r: String)
        ensures
            r@ == subsonic_stream_uri(*self, item_id@),
    {
        let mut s = self.host.clone();
        s.append("/rest/stream?id=");
        s.append(item_id);
        match &self.auth_query {
            Some(q) => {
                s.append("&");
                s.append(q.as_str());
            },
            None => {},
        }
        assert(s@ =~= subsonic_stream_uri(*self, item_id@));
        s
    }
}

impl Backend {
    /// Whether the backend holds a session with its server.
    pub fn is_authenticated(&self) -> (r: bool)
        ensures
            r == backend_authenticated(*self),
    {
        match self {
            Backend::Jellyfin(jellyfin) => jellyfin.is_authenticated(),
            Backend::Subsonic(subsonic) => subsonic.is_authenticated(),
        }
    }

    /// The URI from which the backend's server streams an item.
    pub fn get_stream_uri(&self, item_id: &str) -> (r: String)
        ensures
            r@ == backend_stream_uri(*self, item_id@),
    {
        match self {
            Backend::Jellyfin(jellyfin) => jellyfin.get_stream_uri(item_id),
            Backend::Subsonic(subsonic) => subsonic.get_stream_uri(item_id),
        }
    }
}

impl Default for Backend {
    /// A Jellyfin backend with no server and no session.
    fn default() -> (r: Backend)
        ensures
            r matches Backend::Jellyfin(j) && j.host@ == Seq::<char>::empty()
                && j.access_token is None,
    {
        Backend::Jellyfin(Jellyfin::default())
    }
}

/// The stream URI of an item names the item: two different items of one
/// backend are never streamed from the same URI.
pub proof fn lemma_stream_uri_injective(b: Backend, a: Seq<char>, c: Seq<char>)
    requires
        backend_stream_uri(b, a) == backend_stream_uri(b, c),
    ensures
        a == c,
{
    match b {
        Backend::Jellyfin(j) => {
            let pre = j.host@ + "/Audio/"@;
            assert(backend_stream_uri(b, a).len() == pre.len() + a.len() + "/universal?api_key="@.len()
                + text_or_empty(j.access_token).len());
            assert(backend_stream_uri(b, c).len() == pre.len() + c.len() + "/universal?api_key="@.len()
                + text_or_empty(j.access_token).len());
            assert forall|i: int| 0 <= i < a.len() implies a[i] == c[i] by {
                assert(backend_stream_uri(b, a)[pre.len() + i] == a[i]);
                assert(backend_stream_uri(b, c)[pre.len() + i] == c[i]);
            }
        },
        Backend::Subsonic(s) => {
            let pre = s.host@ + "/rest/stream?id="@;
            let tail: Seq<char> = match s.auth_query {
                Some(q) => "&"@ + q@,
                None => Seq::empty(),
            };
            assert(backend_stream_uri(b, a) == pre + a + tail);
            assert(backend_stream_uri(b, c) == pre + c + tail);
            assert forall|i: int| 0 <= i < a.len() implies a[i] == c[i] by {
                assert(backend_stream_uri(b, a)[pre.len() + i] == a[i]);
                assert(backend_stream_uri(b, c)[pre.len() + i] == c[i]);
            }
        },
    }
    assert(a =~= c);
}

} // verus!
