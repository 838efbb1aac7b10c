//! What the player queues when the user plays an album, an artist, a song, an
//! instant mix or a playlist.
use vstd::prelude::*;
use vstd::string::*;

use crate::backend::BackendError;
use crate::library::{
    lemma_find_song, by_artist, favorite_in, find_song, on_album, song_from, Library, MusicDto, PlaylistItems,
    SongModel,
};

verus! {

/// A new play queue for the audio model: the songs, the position to start at,
/// and whether the queue grew from one chosen song (a single song or an instant
/// mix) rather than from a whole album or artist.
#[derive(Debug, PartialEq, Eq)]
pub struct QueueRequest {
    pub songs: Vec<SongModel>,
    pub start_index: usize,
    pub seeded: bool,
}

/// The song that a server item becomes in the player, its favorite flag taken
/// from the library.
pub open spec fn as_song(library: Seq<SongModel>) -> spec_fn(MusicDto) -> SongModel {
    |dto: MusicDto| song_from(dto, favorite_in(library, dto.id@))
}

/// The songs of a regular playlist.
pub open spec fn playlist_songs_spec(items: Seq<MusicDto>, library: Seq<SongModel>) -> Seq<SongModel> {
    items.map_values(as_song(library))
}

/// Items of an instant mix that are kept: all of them when there is no seed,
/// else those that are not the seed itself.
pub open spec fn mix_keeps(seed: Option<SongModel>) -> spec_fn(MusicDto) -> bool {
    |dto: MusicDto|
        match seed {
            Some(s) => dto.id@ != s.id@,
            None => true,
        }
}

/// The seed song, if it was found, as a sequence of zero or one song.
pub open spec fn seed_seq(seed: Option<SongModel>) -> Seq<SongModel> {
    match seed {
        Some(s) => seq![s],
        None => Seq::empty(),
    }
}

/// The queue of an instant mix: the seed song first when the library has it,
/// then the similar songs in server order, without the seed.
pub open spec fn instant_mix_spec(
    seed: Option<SongModel>,
    items: Seq<MusicDto>,
    library: Seq<SongModel>,
) -> Seq<SongModel> {
    seed_seq(seed) + items.filter(mix_keeps(seed)).map_values(as_song(library))
}

/// Queues every song of the album `id`, in library order, from the start.
pub fn play_album(id: &str, library: &Library) -> (r: QueueRequest)
    ensures
        r.songs@ == library.songs@.filter(on_album(id@)),
        forall|k: int| 0 <= k < r.songs@.len() ==> #[trigger] r.songs@[k].album_id@ == id@,
        forall|i: int|
            0 <= i < library.songs@.len() && #[trigger] library.songs@[i].album_id@ == id@
                ==> r.songs@.contains(library.songs@[i]),
        r.start_index == 0,
        !r.seeded,
{
    let songs = library.songs_for_album(id);
    QueueRequest { songs, start_index: 0, seeded: false }
}

/// Queues every song of the artist `id`, in library order, from the start.
pub fn play_artist(id: &str, library: &Library) -> (r: QueueRequest)
    ensures
        r.songs@ == library.songs@.filter(by_artist(id@)),
        forall|k: int| 0 <= k < r.songs@.len() ==> #[trigger] r.songs@[k].artist_id@ == id@,
        forall|i: int|
            0 <= i < library.songs@.len() && #[trigger] library.songs@[i].artist_id@ == id@
                ==> r.songs@.contains(library.songs@[i]),
        r.start_index == 0,
        !r.seeded,
{
    let songs = library.songs_for_artist(id);
    QueueRequest { songs, start_index: 0, seeded: false }
}

/// Queues the single song `id`; nothing when the library does not hold it.
pub fn play_song(id: &str, library: &Library) -> (r: Option<QueueRequest>)
    ensures
        match find_song(library.songs@, id@) {
            Some(song) => r matches Some(q) && q.songs@ == seq![song] && q.start_index == 0
                && q.seeded,
            None => r is None,
        },
        r matches Some(q) ==> exists|i: int|
            0 <= i < library.songs@.len() && #[trigger] library.songs@[i].id@ == id@ && q.songs@
                == seq![library.songs@[i]] && forall|j: int|
                0 <= j < i ==> library.songs@[j].id@ != id@,
        r is None ==> forall|i: int|
            0 <= i < library.songs@.len() ==> #[trigger] library.songs@[i].id@ != id@,
{
    proof {
        lemma_find_song(library.songs@, id@);
    }
    match library.find(id) {
        Some(song) => {
            let mut songs: Vec<SongModel> = Vec::new();
            songs.push(song);
            Some(QueueRequest { songs, start_index: 0, seeded: true })
        },
        None => None,
    }
}

/// The songs of a regular playlist, each marked favorite as the library marks it.
pub fn playlist_songs(items: &PlaylistItems, library: &Library) -> (r: Vec<SongModel>)
    ensures
        r@ == playlist_songs_spec(items.items@, library.songs@),
        r@.len() == items.items@.len(),
        forall|k: int|
            0 <= k < items.items@.len() ==> {
                let song = #[trigger] r@[k];
                &&& song.id == items.items@[k].id
                &&& song.title == items.items@[k].name
                &&& song.album_id == items.items@[k].album_id
                &&& song.artist_id == items.items@[k].artist_id
                &&& song.favorite == exists|i: int|
                    0 <= i < library.songs@.len() && library.songs@[i].id@ == items.items@[k].id@
                        && library.songs@[i].favorite
            },
{
    proof {
        lemma_playlist_songs(items.items@, library.songs@);
    }
    let mut out: Vec<SongModel> = Vec::new();
    let mut i: usize = 0;
    while i < items.items.len()
        invariant
            i <= items.items.len(),
            out@ == items.items@.take(i as int).map_values(as_song(library.songs@)),
        decreases items.items.len() - i,
    {
        let dto = &items.items[i];
        let favorite = library.song_is_favorite(dto.id.as_str());
        out.push(SongModel::new(dto, favorite));
        i += 1;
        assert(out@ =~= items.items@.take(i as int).map_values(as_song(library.songs@)));
    }
    assert(items.items@.take(i as int) =~= items.items@);
    out
}

/// The queue of an instant mix around the song `id`, given the similar songs
/// that the server returned: the seed first when the library holds it, then
/// the similar songs without the seed, started at once.
pub fn instant_mix(id: &str, library: &Library, similar: &PlaylistItems) -> (r: QueueRequest)
    ensures
        r.songs@ == instant_mix_spec(find_song(library.songs@, id@), similar.items@, library.songs@),
        find_song(library.songs@, id@) matches Some(seed) ==> {
            &&& r.songs@[0] == seed
            &&& forall|k: int|
                0 <= k < similar.items@.len() && #[trigger] similar.items@[k].id@ != id@ ==> exists|j: int|
                    1 <= j < r.songs@.len() && r.songs@[j].id == similar.items@[k].id
                        && r.songs@[j].album_id == similar.items@[k].album_id
                        && r.songs@[j].artist_id == similar.items@[k].artist_id
            &&& forall|j: int| 1 <= j < r.songs@.len() ==> #[trigger] r.songs@[j].id@ != id@
        },
        r.start_index == 0,
        r.seeded,
{
    proof {
        lemma_find_song(library.songs@, id@);
        if let Some(seed) = find_song(library.songs@, id@) {
            lemma_instant_mix_with_seed(seed, similar.items@, library.songs@);
        }
    }
    let seed = library.find(id);
    let ghost keep = mix_keeps(seed);
    let ghost conv = as_song(library.songs@);
    let mut out: Vec<SongModel> = Vec::new();
    match &seed {
        Some(s) => out.push(s.clone()),
        None => {},
    }
    assert(out@ =~= seed_seq(seed) + similar.items@.take(0).filter(keep).map_values(conv)) by {
        reveal_with_fuel(Seq::<_>::filter, 1);
    }
    let mut i: usize = 0;
    while i < similar.items.len()
        invariant
            i <= similar.items.len(),
            keep == mix_keeps(seed),
            conv == as_song(library.songs@),
            out@ == seed_seq(seed) + similar.items@.take(i as int).filter(keep).map_values(conv),
        decreases similar.items.len() - i,
    {
        let dto = &similar.items[i];
        let ghost before = similar.items@.take(i as int);
        let ghost after = similar.items@.take(i + 1);
        assert(after.drop_last() =~= before);
        assert(after.last() == *dto);
        assert(after.filter(keep) == if keep(after.last()) {
            before.filter(keep).push(after.last())
        } else {
            before.filter(keep)
        }) by {
            reveal_with_fuel(Seq::<_>::filter, 1);
        }
        let kept = match &seed {
            Some(s) => dto.id != s.id,
            None => true,
        };
        if kept {
            let favorite = library.song_is_favorite(dto.id.as_str());
            out.push(SongModel::new(dto, favorite));
            assert(before.filter(keep).push(*dto).map_values(conv) =~= before.filter(
                keep,
            ).map_values(conv).push(conv(*dto)));
        }
        i += 1;
        assert(out@ =~= seed_seq(seed) + similar.items@.take(i as int).filter(keep).map_values(
            conv,
        ));
    }
    assert(similar.items@.take(i as int) =~= similar.items@);
    QueueRequest { songs: out, start_index: 0, seeded: true }
}

/// The queue of an instant mix once the server has answered: the mix when it
/// returned similar songs; its error, unchanged, when the request failed (the
/// caller logs it and leaves the queue as it is).
pub fn instant_mix_after(
    id: &str,
    library: &Library,
    similar: Result<PlaylistItems, BackendError>,
) -> (r: Result<QueueRequest, BackendError>)
    ensures
        match similar {
            Ok(items) => r matches Ok(q) && q.songs@ == instant_mix_spec(
                find_song(library.songs@, id@),
                items.items@,
                library.songs@,
            ) && q.start_index == 0 && q.seeded,
            Err(e) => r == Err::<QueueRequest, BackendError>(e),
        },
{
    match similar {
        Ok(items) => Ok(instant_mix(id, library, &items)),
        Err(e) => Err(e),
    }
}

/// The songs of a regular playlist once the server has answered, or its
/// error, unchanged.
pub fn playlist_songs_after(library: &Library, result: Result<PlaylistItems, BackendError>) -> (r:
    Result<Vec<SongModel>, BackendError>)
    ensures
        match result {
            Ok(items) => r matches Ok(v) && v@ == playlist_songs_spec(items.items@, library.songs@),
            Err(e) => r == Err::<Vec<SongModel>, BackendError>(e),
        },
{
    match result {
        Ok(items) => Ok(playlist_songs(&items, library)),
        Err(e) => Err(e),
    }
}

/// The request for the songs similar to `id` that an instant mix is built
/// from: the seed's id and the number of songs asked for (50).
pub fn similar_songs_request(id: &str) -> (r: (String, u32))
    ensures
        r.0@ == id@,
        r.1 == 50,
{
    (String::from_str(id), 50)
}

/// Where the songs of a playlist come from.
#[derive(Debug, PartialEq, Eq)]
pub enum PlaylistSource {
    /// A smart playlist: its songs are picked from the local library at once.
    Local,
    /// A regular playlist: its entries are fetched from the server by this id.
    Fetch(String),
}

/// Smart playlists are answered from the library at once; regular ones are
/// fetched from the server by their id.
pub fn playlist_source(is_smart: bool, id: &str) -> (r: PlaylistSource)
    ensures
        is_smart <==> r is Local,
        !is_smart ==> (r matches PlaylistSource::Fetch(p) && p@ == id@),
{
    if is_smart {
        PlaylistSource::Local
    } else {
        PlaylistSource::Fetch(String::from_str(id))
    }
}

/// An instant mix never plays its seed twice: when the library holds the
/// seed, it comes first and no later song of the mix has its id; every later
/// song is one of the similar songs.
pub proof fn lemma_instant_mix_seed_once(
    seed: Option<SongModel>,
    items: Seq<MusicDto>,
    library: Seq<SongModel>,
    k: int,
)
    requires
        1 <= k < instant_mix_spec(seed, items, library).len(),
        seed is Some,
    ensures
        instant_mix_spec(seed, items, library)[0] == seed->0,
        instant_mix_spec(seed, items, library)[k].id@ != seed->0.id@,
{
    let kept = items.filter(mix_keeps(seed));
    let mix = instant_mix_spec(seed, items, library);
    assert(mix[k] == as_song(library)(kept[k - 1]));
    items.lemma_filter_pred(mix_keeps(seed), k - 1);
}

/// The songs of a regular playlist are its items, one for one and in order,
/// each converted field by field: same id, the item's name as title, same
/// album and artist, and marked favorite exactly when the library holds a
/// favorite song with that id.
pub proof fn lemma_playlist_songs(items: Seq<MusicDto>, library: Seq<SongModel>)
    ensures
        playlist_songs_spec(items, library).len() == items.len(),
        forall|k: int|
            0 <= k < items.len() ==> {
                let song = #[trigger] playlist_songs_spec(items, library)[k];
                &&& song.id == items[k].id
                &&& song.title == items[k].name
                &&& song.album_id == items[k].album_id
                &&& song.artist_id == items[k].artist_id
                &&& song.favorite == exists|i: int|
                    0 <= i < library.len() && library[i].id@ == items[k].id@ && library[i].favorite
            },
{
}

/// An instant mix around a seed that the library holds starts with that seed;
/// after it come exactly the similar songs whose id is not the seed's, in
/// server order, each converted field by field; so every such similar song is
/// queued, and the seed's id never comes back.
pub proof fn lemma_instant_mix_with_seed(seed: SongModel, items: Seq<MusicDto>, library: Seq<SongModel>)
    ensures
        instant_mix_spec(Some(seed), items, library)[0] == seed,
        ({
            let kept = items.filter(|d: MusicDto| d.id@ != seed.id@);
            let rest = instant_mix_spec(Some(seed), items, library).drop_first();
            &&& rest.len() == kept.len()
            &&& forall|k: int|
                0 <= k < kept.len() ==> {
                    let song = #[trigger] rest[k];
                    &&& song.id == kept[k].id
                    &&& song.title == kept[k].name
                    &&& song.album_id == kept[k].album_id
                    &&& song.artist_id == kept[k].artist_id
                    &&& song.favorite == exists|i: int|
                        0 <= i < library.len() && library[i].id@ == kept[k].id@
                            && library[i].favorite
                }
        }),
        forall|k: int|
            0 <= k < items.len() && #[trigger] items[k].id@ != seed.id@ ==> exists|j: int|
                1 <= j < instant_mix_spec(Some(seed), items, library).len() && instant_mix_spec(
                    Some(seed),
                    items,
                    library,
                )[j].id == items[k].id && instant_mix_spec(Some(seed), items, library)[j].album_id
                    == items[k].album_id && instant_mix_spec(Some(seed), items, library)[j].artist_id
                    == items[k].artist_id,
        forall|j: int|
            1 <= j < instant_mix_spec(Some(seed), items, library).len() ==> #[trigger] instant_mix_spec(
                Some(seed),
                items,
                library,
            )[j].id@ != seed.id@,
{
    let p = |d: MusicDto| d.id@ != seed.id@;
    assert(mix_keeps(Some(seed)) =~= p);
    let kept = items.filter(p);
    let r = instant_mix_spec(Some(seed), items, library);
    assert(r.drop_first() =~= kept.map_values(as_song(library)));
    assert forall|k: int| 0 <= k < items.len() && #[trigger] items[k].id@ != seed.id@ implies exists|j: int|
        1 <= j < r.len() && r[j].id == items[k].id && r[j].album_id == items[k].album_id
            && r[j].artist_id == items[k].artist_id by {
        items.lemma_filter_contains(p, k);
        let m = choose|m: int| 0 <= m < kept.len() && kept[m] == items[k];
        assert(r[m + 1] == r.drop_first()[m]);
    }
    assert forall|j: int| 1 <= j < r.len() implies #[trigger] r[j].id@ != seed.id@ by {
        assert(r[j] == r.drop_first()[j - 1]);
        items.lemma_filter_pred(p, j - 1);
    }
}

/// Without a seed in the library, an instant mix is all the similar songs, one
/// for one and in server order, each converted field by field.
pub proof fn lemma_instant_mix_without_seed(items: Seq<MusicDto>, library: Seq<SongModel>)
    ensures
        instant_mix_spec(None, items, library).len() == items.len(),
        forall|k: int|
            0 <= k < items.len() ==> {
                let song = #[trigger] instant_mix_spec(None, items, library)[k];
                &&& song.id == items[k].id
                &&& song.title == items[k].name
                &&& song.album_id == items[k].album_id
                &&& song.artist_id == items[k].artist_id
            },
{
    let p = |d: MusicDto| true;
    assert(mix_keeps(None) =~= p);
    lemma_filter_all(items, p);
    assert(instant_mix_spec(None, items, library) =~= items.map_values(as_song(library)));
}

/// Filtering with a predicate that holds everywhere keeps the sequence.
proof fn lemma_filter_all(items: Seq<MusicDto>, p: spec_fn(MusicDto) -> bool)
    requires
        forall|d: MusicDto| #[trigger] p(d),
    ensures
        items.filter(p) == items,
    decreases items.len(),
{
    reveal_with_fuel(Seq::<_>::filter, 1);
    if items.len() > 0 {
        lemma_filter_all(items.drop_last(), p);
        assert(p(items.last()));
        assert(items.drop_last().push(items.last()) =~= items);
    }
}

} // verus!
