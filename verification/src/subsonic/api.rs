//! The payloads of Subsonic API responses, and the rules by which a response
//! is read: its status, the ids that servers send as text or as numbers, and
//! lists whose malformed items are skipped.
use vstd::prelude::*;

use crate::text::{
    decimal, digits_value, lemma_decimal_is_digits, lemma_decimal_value, signed_decimal,
    signed_text, unsigned_text,
};

verus! {

/// The `subsonic-response` wrapper around every answer.
#[derive(Debug, Clone, PartialEq, Eq)]
pub struct SubsonicEnvelope {
    pub response: SubsonicResponse,
}

/// The body of an answer: its status, an error when it failed, and the payload
/// of whichever call was made.
#[derive(Debug, Clone, PartialEq, Eq)]
pub struct SubsonicResponse {
    pub status: String,
    pub error: Option<SubsonicError>,
    pub music_folders: Option<MusicFoldersPayload>,
    pub album_list2: Option<AlbumList2Payload>,
    pub album: Option<Album>,
    pub playlists: Option<PlaylistsPayload>,
    pub playlist: Option<Playlist>,
    pub song: Option<Song>,
    pub lyrics_list: Option<LyricsList>,
    pub starred2: Option<Starred2Payload>,
    pub similar_songs2: Option<SimilarSongs2Payload>,
}

/// The songs similar to a given one.
#[derive(Debug, Clone, PartialEq, Eq)]
pub struct SimilarSongs2Payload {
    pub song: Vec<Song>,
}

/// The error a server reports with a failed status.
#[derive(Debug, Clone, PartialEq, Eq)]
pub struct SubsonicError {
    pub code: i32,
    pub message: String,
}

/// The music folders (libraries) of the server.
#[derive(Debug, Clone, PartialEq, Eq)]
pub struct MusicFoldersPayload {
    pub music_folders: Vec<MusicFolder>,
}

/// A music folder.
#[derive(Debug, Clone, PartialEq, Eq)]
pub struct MusicFolder {
    pub id: String,
    pub name: String,
}

/// The starred artists, albums and songs.
#[derive(Debug, Clone, PartialEq, Eq)]
pub struct Starred2Payload {
    pub artist: Vec<StarredItem>,
    pub album: Vec<StarredItem>,
    pub song: Vec<StarredItem>,
}

/// A starred item, known by its id.
#[derive(Debug, Clone, PartialEq, Eq)]
pub struct StarredItem {
    pub id: String,
}

/// A page of the album list.
#[derive(Debug, Clone, PartialEq, Eq)]
pub struct AlbumList2Payload {
    pub album: Vec<AlbumListEntry>,
}

/// An album of the album list, known by its id.
#[derive(Debug, Clone, PartialEq, Eq)]
pub struct AlbumListEntry {
    pub id: String,
}

/// An artist as an album or song names it.
#[derive(Debug, Clone, PartialEq, Eq)]
pub struct ArtistRef {
    pub id: String,
    pub name: String,
}

/// An album with its songs.
#[derive(Debug, Clone, PartialEq, Eq)]
pub struct Album {
    pub id: String,
    pub name: String,
    pub album_artists: Vec<ArtistRef>,
    pub artist: Option<String>,
    pub artist_id: Option<String>,
    pub created: Option<String>,
    pub year: Option<u32>,
    pub song: Vec<Song>,
    pub cover_art: Option<String>,
}

/// A song with its metadata. (The replay gain values that a server may send
/// are floating-point numbers and are read only by the application.)
#[derive(Debug, Clone, PartialEq, Eq)]
pub struct Song {
    pub id: String,
    pub title: String,
    pub album: Option<String>,
    pub album_id: Option<String>,
    pub artist: Option<String>,
    pub artist_id: Option<String>,
    pub album_artists: Vec<ArtistRef>,
    pub album_artist: Option<String>,
    pub duration: Option<u64>,
    pub track: Option<u32>,
    pub disc_number: Option<u32>,
    pub year: Option<u32>,
    pub created: Option<String>,
    pub play_count: Option<u64>,
    pub suffix: Option<String>,
    pub size: Option<u64>,
    pub bit_rate: Option<u64>,
    pub sampling_rate: Option<u64>,
    pub channel_count: Option<u32>,
    pub path: Option<String>,
    pub genre: Option<String>,
    pub played: Option<String>,
}

/// The playlists of the user.
#[derive(Debug, Clone, PartialEq, Eq)]
pub struct PlaylistsPayload {
    pub playlist: Vec<PlaylistSummary>,
}

/// A playlist without its entries.
#[derive(Debug, Clone, PartialEq, Eq)]
pub struct PlaylistSummary {
    pub id: String,
    pub name: String,
    pub song_count: Option<u64>,
}

/// A playlist with its entries.
#[derive(Debug, Clone, PartialEq, Eq)]
pub struct Playlist {
    pub id: String,
    pub entry: Vec<Song>,
}

/// The lyrics known for a song.
#[derive(Debug, Clone, PartialEq, Eq)]
pub struct LyricsList {
    pub structured_lyrics: Vec<StructuredLyrics>,
}

/// One set of lyrics, timed or not.
#[derive(Debug, Clone, PartialEq, Eq)]
pub struct StructuredLyrics {
    pub synced: bool,
    pub line: Vec<LyricLine>,
}

/// A line of lyrics, with its start time in milliseconds when timed.
#[derive(Debug, Clone, PartialEq, Eq)]
pub struct LyricLine {
    pub value: String,
    pub start: Option<u64>,
}

/// A character in lower case, for ASCII letters; any other character as it is.
pub open spec fn ascii_lower(c: char) -> char {
    if 'A' <= c <= 'Z' {
        ((c as int) + 32) as char
    } else {
        c
    }
}

/// Whether a status reads `ok`, ignoring the case of ASCII letters.
pub open spec fn status_is_ok(status: Seq<char>) -> bool {
    status.len() == 2 && ascii_lower(status[0]) == 'o' && ascii_lower(status[1]) == 'k'
}

impl SubsonicResponse {
    /// Whether the server reports success: the status is `ok` in any case.
    pub fn is_ok(&self) -> (r: bool)
        ensures
            r == status_is_ok(self.status@),
    {
        let s = self.status.as_str();
        if s.unicode_len() != 2 {
            return false;
        }
        let first = s.get_char(0);
        let second = s.get_char(1);
        (first == 'o' || first == 'O') && (second == 'k' || second == 'K')
    }
}

/// An id as a server sends it: as text, as an integer, or as something else.
/// (Numbers with a fraction are rendered by the caller.)
#[derive(Debug, Clone, PartialEq, Eq)]
pub enum JsonId {
    Text(String),
    Unsigned(u64),
    Signed(i64),
    Other,
}

/// An id that was neither text nor an integer.
#[derive(Debug, Clone, PartialEq, Eq)]
pub struct IdError;

impl IdError {
    /// The message that explains the error.
    pub fn message(&self) -> (r: &'static str)
        ensures
            r@ == "expected music folder id as string or integer"@,
    {
        "expected music folder id as string or integer"
    }
}

/// The text of an id: text as it is, an integer in decimal.
pub open spec fn id_text(value: JsonId) -> Option<Seq<char>> {
    match value {
        JsonId::Text(s) => Some(s@),
        JsonId::Unsigned(n) => Some(decimal(n as nat)),
        JsonId::Signed(n) => Some(signed_decimal(n as int)),
        JsonId::Other => None,
    }
}

/// Reads an id that a server may send as text or as an integer; anything else
/// is an error.
pub fn id_string(value: JsonId) -> (r: Result<String, IdError>)
    ensures
        match id_text(value) {
            Some(t) => r matches Ok(s) && s@ == t,
            None => r is Err,
        },
{
    match value {
        JsonId::Text(s) => Ok(s),
        JsonId::Unsigned(n) => Ok(unsigned_text(n)),
        JsonId::Signed(n) => Ok(signed_text(n)),
        JsonId::Other => Err(IdError),
    }
}

/// The item held by an option, as a sequence of zero or one item.
pub open spec fn option_items<T>(o: Option<T>) -> Seq<T> {
    match o {
        Some(v) => seq![v],
        None => Seq::empty(),
    }
}

/// The items that were read, in order, from a list in which each item was
/// either read (`Some`) or found malformed (`None`).
pub open spec fn parsed_items<T>(items: Seq<Option<T>>) -> Seq<T>
    decreases items.len(),
{
    if items.len() == 0 {
        Seq::empty()
    } else {
        option_items(items[0]) + parsed_items(items.drop_first())
    }
}

/// Keeps the items of a list that could be read, in their order, and drops
/// the malformed ones, so that a partly broken answer can still be used.
pub fn keep_parsed<T>(items: Vec<Option<T>>) -> (r: Vec<T>)
    ensures
        r@ == parsed_items(items@),
{
    let ghost all = items@;
    let mut rest = items;
    let mut out: Vec<T> = Vec::new();
    while rest.len() > 0
        invariant
            out@ + parsed_items(rest@) == parsed_items(all),
        decreases rest.len(),
    {
        let ghost before = rest@;
        let item = rest.remove(0);
        assert(rest@ =~= before.drop_first());
        assert(parsed_items(before) == option_items(item) + parsed_items(rest@));
        match item {
            Some(v) => {
                out.push(v);
            },
            None => {},
        }
        assert(out@ + parsed_items(rest@) =~= parsed_items(all));
    }
    assert(parsed_items(rest@) =~= Seq::<T>::empty());
    assert(out@ =~= parsed_items(all));
    out
}

/// The items kept from a list are exactly those that were read: there are
/// never more of them than items, and a list in which every item was read is
/// kept whole.
pub proof fn lemma_parsed_items_len<T>(items: Seq<Option<T>>)
    ensures
        parsed_items(items).len() <= items.len(),
        (forall|i: int| 0 <= i < items.len() ==> #[trigger] items[i] is Some) ==> parsed_items(
            items,
        ).len() == items.len(),
    decreases items.len(),
{
    if items.len() > 0 {
        lemma_parsed_items_len(items.drop_first());
        if forall|i: int| 0 <= i < items.len() ==> #[trigger] items[i] is Some {
            assert forall|i: int| 0 <= i < items.drop_first().len() implies #[trigger] items.drop_first()[i] is Some by {
                assert(items[i + 1] is Some);
            }
            assert(items[0] is Some);
        }
    }
}

/// Exactly the items that were read are kept, in their order: every item that
/// was read is among the kept ones, every kept one was read from the list, and
/// a list in which every item was read is kept item for item.
pub proof fn lemma_parsed_items_members<T>(items: Seq<Option<T>>)
    ensures
        forall|k: int|
            0 <= k < items.len() && #[trigger] items[k] is Some ==> parsed_items(items).contains(
                items[k]->0,
            ),
        forall|m: int|
            0 <= m < parsed_items(items).len() ==> exists|k: int|
                0 <= k < items.len() && items[k] == Some(#[trigger] parsed_items(items)[m]),
        (forall|i: int| 0 <= i < items.len() ==> #[trigger] items[i] is Some) ==> forall|k: int|
            0 <= k < items.len() ==> #[trigger] parsed_items(items)[k] == items[k]->0,
    decreases items.len(),
{
    if items.len() > 0 {
        let rest = items.drop_first();
        lemma_parsed_items_members(rest);
        lemma_parsed_items_len(rest);
        let head = option_items(items[0]);
        let all = parsed_items(items);
        assert(all == head + parsed_items(rest));
        assert forall|k: int| 0 <= k < items.len() && #[trigger] items[k] is Some implies all.contains(
            items[k]->0,
        ) by {
            if k == 0 {
                assert(all[0] == items[0]->0);
            } else {
                assert(rest[k - 1] == items[k]);
                assert(parsed_items(rest).contains(rest[k - 1]->0));
                let w = choose|w: int| 0 <= w < parsed_items(rest).len() && parsed_items(rest)[w] == rest[k - 1]->0;
                assert(all[head.len() + w] == parsed_items(rest)[w]);
            }
        }
        assert forall|m: int| 0 <= m < all.len() implies exists|k: int|
            0 <= k < items.len() && items[k] == Some(#[trigger] all[m]) by {
            if m < head.len() {
                assert(items[0] == Some(all[m]));
            } else {
                let m2 = m - head.len();
                assert(all[m] == parsed_items(rest)[m2]);
                let k2 = choose|k2: int| 0 <= k2 < rest.len() && rest[k2] == Some(#[trigger] parsed_items(rest)[m2]);
                assert(items[k2 + 1] == rest[k2]);
            }
        }
        if forall|i: int| 0 <= i < items.len() ==> #[trigger] items[i] is Some {
            assert forall|i: int| 0 <= i < rest.len() implies #[trigger] rest[i] is Some by {
                assert(items[i + 1] is Some);
            }
            assert(items[0] is Some);
            assert forall|k: int| 0 <= k < items.len() implies #[trigger] all[k] == items[k]->0 by {
                if k > 0 {
                    assert(all[k] == parsed_items(rest)[k - 1]);
                    assert(rest[k - 1] == items[k]);
                }
            }
        }
    }
}

/// A status is "ok" exactly when it has two characters, an `o` or `O`
/// followed by a `k` or `K`.
pub proof fn lemma_status_is_ok(status: Seq<char>)
    ensures
        status_is_ok(status) <==> (status.len() == 2 && (status[0] == 'o' || status[0] == 'O') && (
        status[1] == 'k' || status[1] == 'K')),
{
    if status.len() == 2 {
        assert(('A' <= status[0] <= 'Z') ==> ascii_lower(status[0]) as int == status[0] as int + 32);
        assert(('A' <= status[1] <= 'Z') ==> ascii_lower(status[1]) as int == status[1] as int + 32);
    }
}

/// An id sent as text is kept as it is; one sent as an integer is written in
/// decimal digits that read back to the integer, with a minus sign exactly
/// when it is negative; anything else is no id.
pub proof fn lemma_id_text(value: JsonId)
    ensures
        value matches JsonId::Text(s) ==> id_text(value) == Some(s@),
        value matches JsonId::Unsigned(n) ==> (id_text(value) matches Some(t) && digits_value(t)
            == n),
        value matches JsonId::Signed(n) ==> (id_text(value) matches Some(t) && (n < 0 <==> (t.len()
            > 0 && t[0] == '-')) && (n >= 0 ==> digits_value(t) == n) && (n < 0 ==> digits_value(
            t.drop_first(),
        ) == -n)),
        value is Other ==> id_text(value) is None,
{
    match value {
        JsonId::Unsigned(n) => {
            lemma_decimal_value(n as nat);
        },
        JsonId::Signed(n) => {
            if n < 0 {
                let d = decimal((-n) as nat);
                lemma_decimal_value((-n) as nat);
                assert((seq!['-'] + d).drop_first() =~= d);
            } else {
                lemma_decimal_value(n as nat);
                lemma_decimal_is_digits(n as nat);
                assert(decimal(n as nat)[0] != '-');
            }
        },
        _ => {},
    }
}

} // verus!
