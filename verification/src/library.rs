//! The local music library: songs as the player shows them, the items a server
//! hands back, and the lookups that the playback helpers make.
use vstd::prelude::*;
use vstd::string::*;

verus! {

/// A song item as a server returns it in a list (a playlist's entries, similar songs).
#[derive(Debug, PartialEq, Eq)]
pub struct MusicDto {
    pub id: String,
    pub name: String,
    pub album_id: String,
    pub artist_id: String,
}

/// The entries of a playlist, or any list of song items, as a server returns them.
#[derive(Debug, PartialEq, Eq)]
pub struct PlaylistItems {
    pub items: Vec<MusicDto>,
}

/// A song as the player shows it: its identity, where it belongs, and whether
/// the user marked it as a favorite.
#[derive(Debug, PartialEq, Eq)]
pub struct SongModel {
    pub id: String,
    pub title: String,
    pub album_id: String,
    pub artist_id: String,
    pub favorite: bool,
}

impl Clone for SongModel {
    fn clone(&self) -> (r: Self)
        ensures
            r == *self,
    {
        SongModel {
            id: self.id.clone(),
            title: self.title.clone(),
            album_id: self.album_id.clone(),
            artist_id: self.artist_id.clone(),
            favorite: self.favorite,
        }
    }
}

/// The song that a server item becomes, with the given favorite flag.
pub open spec fn song_from(dto: MusicDto, favorite: bool) -> SongModel {
    SongModel {
        id: dto.id,
        title: dto.name,
        album_id: dto.album_id,
        artist_id: dto.artist_id,
        favorite: favorite,
    }
}

impl SongModel {
    /// The song for a server item, marked favorite or not.
    pub fn new(dto: &MusicDto, favorite: bool) -> (r: SongModel)
        ensures
            r == song_from(*dto, favorite),
    {
        SongModel {
            id: dto.id.clone(),
            title: dto.name.clone(),
            album_id: dto.album_id.clone(),
            artist_id: dto.artist_id.clone(),
            favorite,
        }
    }
}

/// The field of a song that a lookup goes by.
pub enum SongField {
    Album,
    Artist,
}

/// The id that a song has in this field.
pub open spec fn field_of(s: SongModel, field: SongField) -> Seq<char> {
    match field {
        SongField::Album => s.album_id@,
        SongField::Artist => s.artist_id@,
    }
}

/// Songs whose `field` is `id`.
pub open spec fn with_field(field: SongField, id: Seq<char>) -> spec_fn(SongModel) -> bool {
    |s: SongModel| field_of(s, field) == id
}

/// Songs of the album `id`.
pub open spec fn on_album(id: Seq<char>) -> spec_fn(SongModel) -> bool {
    with_field(SongField::Album, id)
}

/// Songs of the artist `id`.
pub open spec fn by_artist(id: Seq<char>) -> spec_fn(SongModel) -> bool {
    with_field(SongField::Artist, id)
}

/// Whether `songs` holds a song with this id that is marked favorite.
pub open spec fn favorite_in(songs: Seq<SongModel>, id: Seq<char>) -> bool {
    exists|i: int| 0 <= i < songs.len() && #[trigger] songs[i].id@ == id && songs[i].favorite
}

/// The position of the first song with this id, if any.
pub open spec fn first_with_id(songs: Seq<SongModel>, id: Seq<char>) -> Option<int> {
    if exists|i: int| 0 <= i < songs.len() && #[trigger] songs[i].id@ == id {
        Some(
            choose|i: int|
                0 <= i < songs.len() && #[trigger] songs[i].id@ == id && forall|j: int|
                    0 <= j < i ==> songs[j].id@ != id,
        )
    } else {
        None
    }
}

/// The first song with this id, if any.
pub open spec fn find_song(songs: Seq<SongModel>, id: Seq<char>) -> Option<SongModel> {
    match first_with_id(songs, id) {
        Some(i) => Some(songs[i]),
        None => None,
    }
}

/// There is exactly one first position of an id that occurs.
pub proof fn lemma_first_with_id(songs: Seq<SongModel>, id: Seq<char>, k: int)
    requires
        0 <= k < songs.len(),
        songs[k].id@ == id,
        forall|j: int| 0 <= j < k ==> songs[j].id@ != id,
    ensures
        first_with_id(songs, id) == Some(k),
{
    assert(exists|i: int| 0 <= i < songs.len() && #[trigger] songs[i].id@ == id && forall|j: int|
        0 <= j < i ==> songs[j].id@ != id);
    let c = choose|i: int|
        0 <= i < songs.len() && #[trigger] songs[i].id@ == id && forall|j: int|
            0 <= j < i ==> songs[j].id@ != id;
    if c < k {
        assert(songs[c].id@ != id);
    } else if c > k {
        assert(songs[k].id@ != id);
    }
}

/// The songs known to the player, in library order.
#[derive(Debug, PartialEq, Eq)]
pub struct Library {
    pub songs: Vec<SongModel>,
}

impl Library {
    /// Whether the library marks the song with this id as a favorite.
    pub fn song_is_favorite(&self, id: &str) -> (r: bool)
        ensures
            r == favorite_in(self.songs@, id@),
    {
        let key = String::from_str(id);
        let mut i: usize = 0;
        while i < self.songs.len()
            invariant
                i <= self.songs.len(),
                key@ == id@,
                forall|j: int| 0 <= j < i ==> !(#[trigger] self.songs@[j].id@ == id@ && self.songs@[j].favorite),
            decreases self.songs.len() - i,
        {
            if self.songs[i].favorite && self.songs[i].id == key {
                return true;
            }
            i += 1;
        }
        false
    }

    /// The position of the first song with this id.
    pub fn position_of(&self, id: &str) -> (r: Option<usize>)
        ensures
            match r {
                Some(i) => i < self.songs.len() && first_with_id(self.songs@, id@) == Some(i as int),
                None => first_with_id(self.songs@, id@) is None,
            },
    {
        let key = String::from_str(id);
        let mut i: usize = 0;
        while i < self.songs.len()
            invariant
                i <= self.songs.len(),
                key@ == id@,
                forall|j: int| 0 <= j < i ==> #[trigger] self.songs@[j].id@ != id@,
            decreases self.songs.len() - i,
        {
            if self.songs[i].id == key {
                proof {
                    lemma_first_with_id(self.songs@, id@, i as int);
                }
                return Some(i);
            }
            i += 1;
        }
        None
    }

    /// The first song with this id.
    pub fn find(&self, id: &str) -> (r: Option<SongModel>)
        ensures
            r == find_song(self.songs@, id@),
            r matches Some(x) ==> exists|i: int|
                0 <= i < self.songs@.len() && self.songs@[i] == x && #[trigger] self.songs@[i].id@
                    == id@ && forall|j: int| 0 <= j < i ==> self.songs@[j].id@ != id@,
            r is None ==> forall|i: int| 0 <= i < self.songs@.len() ==> #[trigger] self.songs@[i].id@ != id@,
    {
        proof {
            lemma_find_song(self.songs@, id@);
        }
        match self.position_of(id) {
            Some(i) => Some(self.songs[i].clone()),
            None => None,
        }
    }

    /// All songs of the library, in library order.
    pub fn all_songs(&self) -> (r: Vec<SongModel>)
        ensures
            r@ == self.songs@,
    {
        let mut out: Vec<SongModel> = Vec::new();
        let mut i: usize = 0;
        while i < self.songs.len()
            invariant
                i <= self.songs.len(),
                out@ == self.songs@.take(i as int),
            decreases self.songs.len() - i,
        {
            out.push(self.songs[i].clone());
            i += 1;
            assert(out@ =~= self.songs@.take(i as int));
        }
        assert(self.songs@.take(i as int) =~= self.songs@);
        out
    }

    /// The songs whose `field` is `key`, in library order.
    fn songs_where(&self, field: SongField, key: &str) -> (r: Vec<SongModel>)
        ensures
            r@ == self.songs@.filter(with_field(field, key@)),
    {
        let k = String::from_str(key);
        let ghost pred = with_field(field, key@);
        let mut out: Vec<SongModel> = Vec::new();
        let mut i: usize = 0;
        while i < self.songs.len()
            invariant
                i <= self.songs.len(),
                k@ == key@,
                pred == with_field(field, key@),
                out@ == self.songs@.take(i as int).filter(pred),
            decreases self.songs.len() - i,
        {
            let ghost before = self.songs@.take(i as int);
            let ghost after = self.songs@.take(i + 1);
            assert(after.drop_last() =~= before);
            assert(after.last() == self.songs@[i as int]);
            proof {
                reveal_with_fuel(Seq::<_>::filter, 1);
            }
            assert(after.filter(pred) == if pred(after.last()) {
                before.filter(pred).push(after.last())
            } else {
                before.filter(pred)
            });
            let song = &self.songs[i];
            let hit = match field {
                SongField::Album => song.album_id == k,
                SongField::Artist => song.artist_id == k,
            };
            if hit {
                out.push(song.clone());
            }
            i += 1;
        }
        assert(self.songs@.take(i as int) =~= self.songs@);
        out
    }

    /// The songs of the album `album_id`, in library order.
    pub fn songs_for_album(&self, album_id: &str) -> (r: Vec<SongModel>)
        ensures
            r@ == self.songs@.filter(on_album(album_id@)),
            forall|k: int| 0 <= k < r@.len() ==> #[trigger] r@[k].album_id@ == album_id@,
            forall|i: int|
                0 <= i < self.songs@.len() && #[trigger] self.songs@[i].album_id@ == album_id@
                    ==> r@.contains(self.songs@[i]),
    {
        proof {
            lemma_album_songs(self.songs@, album_id@);
        }
        self.songs_where(SongField::Album, album_id)
    }

    /// The songs of the artist `artist_id`, in library order.
    pub fn songs_for_artist(&self, artist_id: &str) -> (r: Vec<SongModel>)
        ensures
            r@ == self.songs@.filter(by_artist(artist_id@)),
            forall|k: int| 0 <= k < r@.len() ==> #[trigger] r@[k].artist_id@ == artist_id@,
            forall|i: int|
                0 <= i < self.songs@.len() && #[trigger] self.songs@[i].artist_id@ == artist_id@
                    ==> r@.contains(self.songs@[i]),
    {
        proof {
            lemma_artist_songs(self.songs@, artist_id@);
        }
        self.songs_where(SongField::Artist, artist_id)
    }

    /// The album of the song `song_id`, when the library holds the song.
    pub fn album_for_item(&self, song_id: &str) -> (r: Option<String>)
        ensures
            match find_song(self.songs@, song_id@) {
                Some(s) => r matches Some(a) && a@ == s.album_id@,
                None => r is None,
            },
    {
        match self.find(song_id) {
            Some(s) => Some(s.album_id),
            None => None,
        }
    }

    /// The artist of the song `song_id`, when the library holds the song.
    pub fn artist_for_item(&self, song_id: &str) -> (r: Option<String>)
        ensures
            match find_song(self.songs@, song_id@) {
                Some(s) => r matches Some(a) && a@ == s.artist_id@,
                None => r is None,
            },
    {
        match self.find(song_id) {
            Some(s) => Some(s.artist_id),
            None => None,
        }
    }
}

/// Finding a song gives the library's own song, at the first position that
/// holds the id; nothing is found only when no song has the id.
pub proof fn lemma_find_song(songs: Seq<SongModel>, id: Seq<char>)
    ensures
        find_song(songs, id) matches Some(x) ==> exists|i: int|
            0 <= i < songs.len() && songs[i] == x && #[trigger] songs[i].id@ == id && forall|j: int|
                0 <= j < i ==> songs[j].id@ != id,
        find_song(songs, id) is None ==> forall|i: int| 0 <= i < songs.len() ==> #[trigger] songs[i].id@ != id,
{
    if exists|i: int| 0 <= i < songs.len() && #[trigger] songs[i].id@ == id {
        let w = choose|i: int| 0 <= i < songs.len() && #[trigger] songs[i].id@ == id;
        lemma_first_occurrence(songs, id, w);
        let k = choose|k: int|
            0 <= k < songs.len() && #[trigger] songs[k].id@ == id && forall|j: int|
                0 <= j < k ==> songs[j].id@ != id;
        lemma_first_with_id(songs, id, k);
        assert(songs[k] == songs[k]);
    }
}

/// A song that occurs has a first occurrence.
proof fn lemma_first_occurrence(songs: Seq<SongModel>, id: Seq<char>, w: int)
    requires
        0 <= w < songs.len(),
        songs[w].id@ == id,
    ensures
        exists|k: int|
            0 <= k < songs.len() && #[trigger] songs[k].id@ == id && forall|j: int|
                0 <= j < k ==> songs[j].id@ != id,
    decreases w,
{
    if exists|j: int| 0 <= j < w && #[trigger] songs[j].id@ == id {
        let j = choose|j: int| 0 <= j < w && #[trigger] songs[j].id@ == id;
        lemma_first_occurrence(songs, id, j);
    } else {
        assert(forall|j: int| 0 <= j < w ==> songs[j].id@ != id);
    }
}

/// The songs of an album are the library's songs whose album id is exactly
/// that id, in library order: each of them has that album id, and every song
/// of the library with that album id is among them.
pub proof fn lemma_album_songs(songs: Seq<SongModel>, id: Seq<char>)
    ensures
        songs.filter(on_album(id)) == songs.filter(|s: SongModel| s.album_id@ == id),
        forall|k: int|
            0 <= k < songs.filter(on_album(id)).len() ==> #[trigger] songs.filter(on_album(id))[k].album_id@
                == id,
        forall|i: int|
            0 <= i < songs.len() && #[trigger] songs[i].album_id@ == id ==> songs.filter(
                on_album(id),
            ).contains(songs[i]),
{
    let p = |s: SongModel| s.album_id@ == id;
    assert(on_album(id) =~= p);
    assert forall|k: int| 0 <= k < songs.filter(p).len() implies #[trigger] songs.filter(p)[k].album_id@
        == id by {
        songs.lemma_filter_pred(p, k);
    }
    assert forall|i: int| 0 <= i < songs.len() && #[trigger] songs[i].album_id@ == id implies songs.filter(
        p,
    ).contains(songs[i]) by {
        songs.lemma_filter_contains(p, i);
    }
}

/// The songs of an artist are the library's songs whose artist id is exactly
/// that id, in library order: each of them has that artist id, and every song
/// of the library with that artist id is among them.
pub proof fn lemma_artist_songs(songs: Seq<SongModel>, id: Seq<char>)
    ensures
        songs.filter(by_artist(id)) == songs.filter(|s: SongModel| s.artist_id@ == id),
        forall|k: int|
            0 <= k < songs.filter(by_artist(id)).len() ==> #[trigger] songs.filter(by_artist(id))[k].artist_id@
                == id,
        forall|i: int|
            0 <= i < songs.len() && #[trigger] songs[i].artist_id@ == id ==> songs.filter(
                by_artist(id),
            ).contains(songs[i]),
{
    let p = |s: SongModel| s.artist_id@ == id;
    assert(by_artist(id) =~= p);
    assert forall|k: int| 0 <= k < songs.filter(p).len() implies #[trigger] songs.filter(p)[k].artist_id@
        == id by {
        songs.lemma_filter_pred(p, k);
    }
    assert forall|i: int| 0 <= i < songs.len() && #[trigger] songs[i].artist_id@ == id implies songs.filter(
        p,
    ).contains(songs[i]) by {
        songs.lemma_filter_contains(p, i);
    }
}

} // verus!
