//! The context menu of a song, album or artist, the "add to playlist" dialog,
//! and the check for a song that a playlist already holds.
use vstd::prelude::*;
use vstd::string::*;

use crate::backend::BackendError;
use crate::library::PlaylistItems;

verus! {

/// Which entries a context menu offers, and the prefix of its action names
/// (`song`, `album`, `artist`).
#[derive(Debug, Clone, PartialEq, Eq)]
pub struct ContextActions {
    pub can_remove_from_playlist: bool,
    pub in_queue: bool,
    pub action_prefix: String,
    pub go_to_artist: bool,
    pub go_to_album: bool,
    pub show_info_dialog: bool,
}

/// One menu entry: the label (an untranslated message, translated when shown)
/// and the name of the action it triggers.
#[derive(Debug, PartialEq, Eq)]
pub struct MenuItem {
    pub label: String,
    pub action: String,
}

/// A group of entries, shown between separators.
#[derive(Debug, PartialEq, Eq)]
pub struct MenuSection {
    pub items: Vec<MenuItem>,
}

/// A menu entry as a pair of texts: label and action.
pub open spec fn item_view(item: MenuItem) -> (Seq<char>, Seq<char>) {
    (item.label@, item.action@)
}

/// A section as the sequence of its entries.
pub open spec fn section_view(section: MenuSection) -> Seq<(Seq<char>, Seq<char>)> {
    section.items@.map_values(|item: MenuItem| item_view(item))
}

/// A menu as the sequence of its sections.
pub open spec fn menu_view(menu: Seq<MenuSection>) -> Seq<Seq<(Seq<char>, Seq<char>)>> {
    menu.map_values(|section: MenuSection| section_view(section))
}

/// An entry with this label whose action is the prefix followed by `suffix`.
pub open spec fn entry(label: Seq<char>, prefix: Seq<char>, suffix: Seq<char>) -> (
    Seq<char>,
    Seq<char>,
) {
    (label, prefix + suffix)
}

/// One entry when `cond` holds, none otherwise.
pub open spec fn entry_if(cond: bool, e: (Seq<char>, Seq<char>)) -> Seq<(Seq<char>, Seq<char>)> {
    if cond {
        seq![e]
    } else {
        Seq::empty()
    }
}

/// The queue section: queue next, queue last, and an instant mix for songs.
pub open spec fn queue_section(p: Seq<char>) -> Seq<(Seq<char>, Seq<char>)> {
    seq![entry("Queue Next"@, p, ".queue_next"@), entry("Queue Last"@, p, ".queue_last"@)]
        + entry_if(p == "song"@, entry("Instant Mix"@, p, ".instant_mix"@))
}

/// The playlist section: add, and remove where the item sits in a playlist.
pub open spec fn playlist_section(c: ContextActions) -> Seq<(Seq<char>, Seq<char>)> {
    let p = c.action_prefix@;
    seq![entry("Add to Playlist"@, p, ".add_to_playlist_dialog"@)] + entry_if(
        c.can_remove_from_playlist,
        entry("Remove from Playlist"@, p, ".remove_playlist"@),
    )
}

/// The navigation section: go to the album, go to the artist.
pub open spec fn navigation_section(c: ContextActions) -> Seq<(Seq<char>, Seq<char>)> {
    let p = c.action_prefix@;
    entry_if(c.go_to_album, entry("Go to Album"@, p, ".go_to_album"@)) + entry_if(
        c.go_to_artist,
        entry("Go to Artist"@, p, ".go_to_artist"@),
    )
}

/// The last section: the song's information, or else copying its id.
pub open spec fn other_section(c: ContextActions) -> Seq<(Seq<char>, Seq<char>)> {
    let p = c.action_prefix@;
    if c.show_info_dialog {
        seq![entry("Song Info"@, p, ".show_info_dialog"@)]
    } else {
        seq![entry("Copy ID"@, p, ".copy_id"@)]
    }
}

/// The whole menu: the queue section unless the item is in the queue already,
/// then the playlist, navigation and last sections.
pub open spec fn menu_spec(c: ContextActions) -> Seq<Seq<(Seq<char>, Seq<char>)>> {
    (if c.in_queue {
        Seq::empty()
    } else {
        seq![queue_section(c.action_prefix@)]
    }) + seq![playlist_section(c), navigation_section(c), other_section(c)]
}

fn make_entry(label: &str, prefix: &String, suffix: &str) -> (r: MenuItem)
    ensures
        item_view(r) == entry(label@, prefix@, suffix@),
{
    let mut action = prefix.clone();
    action.append(suffix);
    MenuItem { label: String::from_str(label), action }
}

fn push_entry(items: &mut Vec<MenuItem>, label: &str, prefix: &String, suffix: &str)
    ensures
        final(items)@.map_values(|item: MenuItem| item_view(item)) == old(items)@.map_values(
            |item: MenuItem| item_view(item),
        ).push(entry(label@, prefix@, suffix@)),
{
    let e = make_entry(label, prefix, suffix);
    items.push(e);
    assert(items@.map_values(|item: MenuItem| item_view(item)) =~= old(items)@.map_values(
        |item: MenuItem| item_view(item),
    ).push(entry(label@, prefix@, suffix@)));
}

/// The sections of the context menu for these settings.
pub fn create_menu_model(config: &ContextActions) -> (r: Vec<MenuSection>)
    ensures
        menu_view(r@) == menu_spec(*config),
        forall|i: int, j: int|
            0 <= i < r@.len() && 0 <= j < r@[i].items@.len() && (#[trigger] r@[i].items@[j]).label@
                == "Instant Mix"@ ==> config.action_prefix@ == "song"@ && !config.in_queue,
        (config.action_prefix@ == "song"@ && !config.in_queue) ==> exists|j: int|
            0 <= j < r@[0].items@.len() && (#[trigger] r@[0].items@[j]).label@ == "Instant Mix"@,
{
    let prefix = &config.action_prefix;
    let mut menu: Vec<MenuSection> = Vec::new();
    let ghost p = prefix@;
    if !config.in_queue {
        let mut items: Vec<MenuItem> = Vec::new();
        push_entry(&mut items, "Queue Next", prefix, ".queue_next");
        push_entry(&mut items, "Queue Last", prefix, ".queue_last");
        let song = String::from_str("song");
        if *prefix == song {
            push_entry(&mut items, "Instant Mix", prefix, ".instant_mix");
        }
        let section = MenuSection { items };
        assert(section_view(section) =~= queue_section(p));
        menu.push(section);
    }
    let mut playlist_items: Vec<MenuItem> = Vec::new();
    push_entry(&mut playlist_items, "Add to Playlist", prefix, ".add_to_playlist_dialog");
    if config.can_remove_from_playlist {
        push_entry(&mut playlist_items, "Remove from Playlist", prefix, ".remove_playlist");
    }
    let playlist = MenuSection { items: playlist_items };
    assert(section_view(playlist) =~= playlist_section(*config));
    menu.push(playlist);

    let mut navigation_items: Vec<MenuItem> = Vec::new();
    if config.go_to_album {
        push_entry(&mut navigation_items, "Go to Album", prefix, ".go_to_album");
    }
    if config.go_to_artist {
        push_entry(&mut navigation_items, "Go to Artist", prefix, ".go_to_artist");
    }
    let navigation = MenuSection { items: navigation_items };
    assert(section_view(navigation) =~= navigation_section(*config));
    menu.push(navigation);

    let mut other_items: Vec<MenuItem> = Vec::new();
    if config.show_info_dialog {
        push_entry(&mut other_items, "Song Info", prefix, ".show_info_dialog");
    } else {
        push_entry(&mut other_items, "Copy ID", prefix, ".copy_id");
    }
    let other = MenuSection { items: other_items };
    assert(section_view(other) =~= other_section(*config));
    menu.push(other);

    assert(menu_view(menu@) =~= menu_spec(*config));
    proof {
        lemma_instant_mix_entry(*config);
        assert forall|i: int, j: int|
            0 <= i < menu@.len() && 0 <= j < menu@[i].items@.len() && (#[trigger] menu@[i].items@[j]).label@
                == "Instant Mix"@ implies config.action_prefix@ == "song"@ && !config.in_queue by {
            assert(menu_view(menu@)[i] == section_view(menu@[i]));
            assert(section_view(menu@[i])[j] == item_view(menu@[i].items@[j]));
        }
        if config.action_prefix@ == "song"@ && !config.in_queue {
            let e = ("Instant Mix"@, "song.instant_mix"@);
            assert(menu_view(menu@)[0] == section_view(menu@[0]));
            let j = choose|j: int| 0 <= j < menu_spec(*config)[0].len() && menu_spec(*config)[0][j] == e;
            assert(section_view(menu@[0])[j] == item_view(menu@[0].items@[j]));
            assert(menu@[0].items@[j].label@ == "Instant Mix"@);
        }
    }
    menu
}

/// A playlist as the "add to playlist" dialog lists it.
#[derive(Debug, PartialEq, Eq)]
pub struct PlaylistDto {
    pub id: String,
    pub name: String,
}

/// The texts of a dialog that asks for a confirmation (untranslated
/// messages), the ids of its two responses, and which response is the
/// default and which one closing the dialog gives.
#[derive(Debug, PartialEq, Eq)]
pub struct ConfirmDialog {
    pub heading: &'static str,
    pub cancel_label: &'static str,
    pub confirm_label: &'static str,
    pub default_response: &'static str,
    pub close_response: &'static str,
}

/// The dialog that asks whether to add a song that the playlist holds already.
pub fn duplicate_song_dialog() -> (r: ConfirmDialog)
    ensures
        r.heading@ == "Song already in playlist"@,
        r.cancel_label@ == "Cancel"@,
        r.confirm_label@ == "Add Anyway"@,
        r.default_response@ == "add"@,
        r.close_response@ == "cancel"@,
{
    ConfirmDialog {
        heading: "Song already in playlist",
        cancel_label: "Cancel",
        confirm_label: "Add Anyway",
        default_response: "add",
        close_response: "cancel",
    }
}

/// The "add to playlist" dialog: its buttons, and either the playlists to
/// choose from or, when there are none, a message in place of the "add"
/// button.
#[derive(Debug, PartialEq, Eq)]
pub struct PlaylistDialog {
    pub buttons: ConfirmDialog,
    /// Whether the "add" response is offered.
    pub offers_add: bool,
    /// The names that the drop-down lists.
    pub names: Vec<String>,
    /// The body text shown when there is nothing to choose.
    pub body: Option<&'static str>,
    /// Whether the "add" button has the suggested (highlighted) look.
    pub add_suggested: bool,
    /// Whether the drop-down can be searched by typing.
    pub search_enabled: bool,
    /// Whether a search matches a name anywhere in it, not only at its start.
    pub substring_search: bool,
}

/// The content of the "add to playlist" dialog for these playlists.
pub fn add_to_playlist_dialog_content(playlists: &Vec<PlaylistDto>) -> (r: PlaylistDialog)
    ensures
        r.buttons.heading@ == "Add to Playlist"@,
        r.buttons.cancel_label@ == "Cancel"@,
        r.buttons.confirm_label@ == "Add"@,
        r.buttons.default_response@ == "add"@,
        r.buttons.close_response@ == "cancel"@,
        r.offers_add == (playlists@.len() > 0),
        r.names@.len() == playlists@.len(),
        forall|i: int| 0 <= i < r.names@.len() ==> #[trigger] r.names@[i]@ == playlists@[i].name@,
        playlists@.len() > 0 ==> r.body is None && r.add_suggested && r.search_enabled
            && r.substring_search,
        playlists@.len() == 0 ==> (r.body matches Some(b) && b@
            == "No playlists available. Please create a playlist first."@),
{
    let buttons = ConfirmDialog {
        heading: "Add to Playlist",
        cancel_label: "Cancel",
        confirm_label: "Add",
        default_response: "add",
        close_response: "cancel",
    };
    let names = playlist_names(playlists);
    if playlists.len() > 0 {
        PlaylistDialog {
            buttons,
            offers_add: true,
            names,
            body: None,
            add_suggested: true,
            search_enabled: true,
            substring_search: true,
        }
    } else {
        PlaylistDialog {
            buttons,
            offers_add: false,
            names,
            body: Some("No playlists available. Please create a playlist first."),
            add_suggested: true,
            search_enabled: false,
            substring_search: false,
        }
    }
}

/// The names that the playlist drop-down shows, one per playlist, in order.
pub fn playlist_names(playlists: &Vec<PlaylistDto>) -> (r: Vec<String>)
    ensures
        r@.len() == playlists@.len(),
        forall|i: int| 0 <= i < r@.len() ==> #[trigger] r@[i]@ == playlists@[i].name@,
{
    let mut out: Vec<String> = Vec::new();
    let mut i: usize = 0;
    while i < playlists.len()
        invariant
            i <= playlists.len(),
            out@.len() == i,
            forall|j: int| 0 <= j < i ==> #[trigger] out@[j]@ == playlists@[j].name@,
        decreases playlists.len() - i,
    {
        out.push(playlists[i].name.clone());
        i += 1;
    }
    out
}

/// Whether a dialog's response is the "add" button.
pub fn is_add_response(response: &str) -> (r: bool)
    ensures
        r == (response@ == "add"@),
{
    let add = String::from_str("add");
    String::from_str(response) == add
}

/// The playlist chosen in the dialog: its id when the user pressed "add" with
/// a playlist selected, nothing otherwise.
pub fn chosen_playlist(playlists: &Vec<PlaylistDto>, response: &str, selected: u32) -> (r: Option<
    String,
>)
    ensures
        match r {
            Some(id) => response@ == "add"@ && selected < playlists@.len() && id@
                == playlists@[selected as int].id@,
            None => response@ != "add"@ || selected >= playlists@.len(),
        },
{
    if is_add_response(response) {
        let index = selected as usize;
        if index < playlists.len() {
            return Some(playlists[index].id.clone());
        }
    }
    None
}

/// Whether a playlist's entries hold the song `song_id`.
pub fn playlist_contains(items: &PlaylistItems, song_id: &str) -> (r: bool)
    ensures
        r == exists|i: int| 0 <= i < items.items@.len() && #[trigger] items.items@[i].id@ == song_id@,
{
    let key = String::from_str(song_id);
    let mut i: usize = 0;
    while i < items.items.len()
        invariant
            i <= items.items.len(),
            key@ == song_id@,
            forall|j: int| 0 <= j < i ==> #[trigger] items.items@[j].id@ != song_id@,
        decreases items.items.len() - i,
    {
        if items.items[i].id == key {
            assert(items.items@[i as int].id@ == song_id@);
            return true;
        }
        i += 1;
    }
    false
}

/// What to do once the playlist has been checked for the song.
#[derive(Debug, PartialEq, Eq)]
pub enum DupCheckOutcome {
    /// Add the song without asking.
    AddNow,
    /// The playlist holds the song already: ask whether to add it anyway.
    AskUser,
}

/// Asks the user only when the playlist is known to hold the song; when the
/// check itself failed, the song is added all the same.
pub fn dup_check_outcome(result: &Result<bool, BackendError>) -> (r: DupCheckOutcome)
    ensures
        (r is AskUser) <==> (*result matches Ok(found) && found),
{
    match result {
        Ok(true) => DupCheckOutcome::AskUser,
        Ok(false) => DupCheckOutcome::AddNow,
        Err(_) => DupCheckOutcome::AddNow,
    }
}

/// Every action of a context menu is named after the menu's prefix, a dot and
/// the action's own name.
pub proof fn lemma_menu_actions_prefixed(c: ContextActions, i: int, j: int)
    requires
        0 <= i < menu_spec(c).len(),
        0 <= j < menu_spec(c)[i].len(),
    ensures
        menu_spec(c)[i][j].1.len() > c.action_prefix@.len(),
        menu_spec(c)[i][j].1.subrange(0, c.action_prefix@.len() + 1int) == c.action_prefix@ + seq!['.'],
{
    reveal_strlit(".queue_next");
    reveal_strlit(".queue_last");
    reveal_strlit(".instant_mix");
    reveal_strlit(".add_to_playlist_dialog");
    reveal_strlit(".remove_playlist");
    reveal_strlit(".go_to_album");
    reveal_strlit(".go_to_artist");
    reveal_strlit(".show_info_dialog");
    reveal_strlit(".copy_id");
    let p = c.action_prefix@;
    let a = menu_spec(c)[i][j].1;
    assert(exists|s: Seq<char>| a == p + s && s.len() > 0 && s[0] == '.') by {
        let sections = menu_spec(c);
        if !c.in_queue && i == 0 {
            let q = queue_section(p);
            assert(sections[i] == q);
        } else {
            let k = if c.in_queue { i } else { i - 1 };
            assert(sections[i] == seq![playlist_section(c), navigation_section(c), other_section(c)][k]);
        }
    }
    assert(a.subrange(0, p.len() + 1int) =~= p + seq!['.']);
}

/// An "Instant Mix" entry is offered only in the menu of a song that is not
/// in the queue, where it triggers the prefix's `instant_mix` action; and
/// such a song's menu always offers it, in its first section.
pub proof fn lemma_instant_mix_entry(c: ContextActions)
    ensures
        forall|i: int, j: int|
            0 <= i < menu_spec(c).len() && 0 <= j < menu_spec(c)[i].len() && (#[trigger] menu_spec(
                c,
            )[i][j]).0 == "Instant Mix"@ ==> c.action_prefix@ == "song"@ && !c.in_queue
                && menu_spec(c)[i][j].1 == c.action_prefix@ + ".instant_mix"@,
        (c.action_prefix@ == "song"@ && !c.in_queue) ==> menu_spec(c)[0].contains(
            ("Instant Mix"@, "song.instant_mix"@),
        ),
{
    reveal_strlit("Queue Next");
    reveal_strlit("Queue Last");
    reveal_strlit("Instant Mix");
    reveal_strlit("Add to Playlist");
    reveal_strlit("Remove from Playlist");
    reveal_strlit("Go to Album");
    reveal_strlit("Go to Artist");
    reveal_strlit("Song Info");
    reveal_strlit("Copy ID");
    reveal_strlit("song");
    reveal_strlit(".instant_mix");
    reveal_strlit("song.instant_mix");
    let p = c.action_prefix@;
    let m = menu_spec(c);
    let rest = seq![playlist_section(c), navigation_section(c), other_section(c)];
    let im = "Instant Mix"@;
    assert(im.len() == 11 && im[0] == 'I');
    assert("Queue Next"@.len() != im.len());
    assert("Queue Last"@.len() != im.len());
    assert("Add to Playlist"@.len() != im.len());
    assert("Remove from Playlist"@.len() != im.len());
    assert("Go to Album"@[0] != im[0]);
    assert("Go to Artist"@.len() != im.len());
    assert("Song Info"@.len() != im.len());
    assert("Copy ID"@.len() != im.len());
    if c.in_queue {
        assert(m =~= rest);
    } else {
        assert(m =~= seq![queue_section(p)] + rest);
    }
    assert forall|i: int, j: int|
        0 <= i < m.len() && 0 <= j < m[i].len() && (#[trigger] m[i][j]).0 == "Instant Mix"@ implies p
        == "song"@ && !c.in_queue && m[i][j].1 == p + ".instant_mix"@ by {
        if !c.in_queue && i == 0 {
            let q = queue_section(p);
            assert(m[i] == q);
            if j == 0 {
                assert(q[j].0 == "Queue Next"@);
            } else if j == 1 {
                assert(q[j].0 == "Queue Last"@);
            } else {
                assert(p == "song"@);
            }
        } else {
            let k = if c.in_queue { i } else { i - 1 };
            assert(m[i] == rest[k]);
            if k == 0 {
                let pl = playlist_section(c);
                assert(m[i][j] == pl[j]);
                if j == 0 {
                    assert(pl[j].0 == "Add to Playlist"@);
                } else {
                    assert(pl[j].0 == "Remove from Playlist"@);
                }
            } else if k == 1 {
                let nav = navigation_section(c);
                assert(m[i][j] == nav[j]);
                assert(nav[j].0 == "Go to Album"@ || nav[j].0 == "Go to Artist"@);
            } else {
                let o = other_section(c);
                assert(m[i][j] == o[j]);
                assert(o[j].0 == "Song Info"@ || o[j].0 == "Copy ID"@);
            }
        }
    }
    if p == "song"@ && !c.in_queue {
        let q = queue_section(p);
        assert(m[0] == q);
        assert(q[2] == ("Instant Mix"@, "song.instant_mix"@));
    }
}

/// Whether the menu offers this entry, in any section.
pub open spec fn offers(m: Seq<Seq<(Seq<char>, Seq<char>)>>, e: (Seq<char>, Seq<char>)) -> bool {
    exists|i: int, j: int| 0 <= i < m.len() && 0 <= j < m[i].len() && #[trigger] m[i][j] == e
}

/// Each entry of a context menu is offered exactly under its own condition:
/// queue next and last outside the queue, an instant mix for a song outside
/// the queue, adding to a playlist always, removal where allowed, going to the
/// album or the artist where asked, and either the song's information or
/// copying its id. No other entry is ever offered.
pub proof fn lemma_menu_entries(c: ContextActions)
    ensures
        ({
            let p = c.action_prefix@;
            let m = menu_spec(c);
            &&& offers(m, ("Queue Next"@, p + ".queue_next"@)) <== !c.in_queue
            &&& offers(m, ("Queue Last"@, p + ".queue_last"@)) <== !c.in_queue
            &&& offers(m, ("Instant Mix"@, p + ".instant_mix"@)) <== !c.in_queue && p == "song"@
            &&& offers(m, ("Add to Playlist"@, p + ".add_to_playlist_dialog"@))
            &&& offers(m, ("Remove from Playlist"@, p + ".remove_playlist"@)) <== c.can_remove_from_playlist
            &&& offers(m, ("Go to Album"@, p + ".go_to_album"@)) <== c.go_to_album
            &&& offers(m, ("Go to Artist"@, p + ".go_to_artist"@)) <== c.go_to_artist
            &&& offers(m, ("Song Info"@, p + ".show_info_dialog"@)) <== c.show_info_dialog
            &&& offers(m, ("Copy ID"@, p + ".copy_id"@)) <== !c.show_info_dialog
            &&& forall|i: int, j: int|
                0 <= i < m.len() && 0 <= j < m[i].len() ==> {
                    let e = #[trigger] m[i][j];
                    ||| e == ("Queue Next"@, p + ".queue_next"@) && !c.in_queue
                    ||| e == ("Queue Last"@, p + ".queue_last"@) && !c.in_queue
                    ||| e == ("Instant Mix"@, p + ".instant_mix"@) && !c.in_queue && p == "song"@
                    ||| e == ("Add to Playlist"@, p + ".add_to_playlist_dialog"@)
                    ||| e == ("Remove from Playlist"@, p + ".remove_playlist"@) && c.can_remove_from_playlist
                    ||| e == ("Go to Album"@, p + ".go_to_album"@) && c.go_to_album
                    ||| e == ("Go to Artist"@, p + ".go_to_artist"@) && c.go_to_artist
                    ||| e == ("Song Info"@, p + ".show_info_dialog"@) && c.show_info_dialog
                    ||| e == ("Copy ID"@, p + ".copy_id"@) && !c.show_info_dialog
                }
        }),
{
    let p = c.action_prefix@;
    let m = menu_spec(c);
    let rest = seq![playlist_section(c), navigation_section(c), other_section(c)];
    let base: int = if c.in_queue { 0 } else { 1 };
    if c.in_queue {
        assert(m =~= rest);
    } else {
        assert(m =~= seq![queue_section(p)] + rest);
    }
    assert(m[base] == playlist_section(c));
    assert(m[base + 1] == navigation_section(c));
    assert(m[base + 2] == other_section(c));
    let nav = navigation_section(c);
    if !c.in_queue {
        let q = queue_section(p);
        assert(m[0] == q);
        assert(m[0][0] == ("Queue Next"@, p + ".queue_next"@));
        assert(m[0][1] == ("Queue Last"@, p + ".queue_last"@));
        if p == "song"@ {
            assert(m[0][2] == ("Instant Mix"@, p + ".instant_mix"@));
        }
    }
    assert(m[base][0] == ("Add to Playlist"@, p + ".add_to_playlist_dialog"@));
    if c.can_remove_from_playlist {
        assert(m[base][1] == ("Remove from Playlist"@, p + ".remove_playlist"@));
    }
    if c.go_to_album {
        assert(m[base + 1][0] == ("Go to Album"@, p + ".go_to_album"@));
    }
    if c.go_to_artist {
        let k: int = if c.go_to_album { 1 } else { 0 };
        assert(nav[k] == ("Go to Artist"@, p + ".go_to_artist"@));
        assert(m[base + 1][k] == nav[k]);
    }
    if c.show_info_dialog {
        assert(m[base + 2][0] == ("Song Info"@, p + ".show_info_dialog"@));
    } else {
        assert(m[base + 2][0] == ("Copy ID"@, p + ".copy_id"@));
    }
    assert forall|i: int, j: int| 0 <= i < m.len() && 0 <= j < m[i].len() implies {
        let e = #[trigger] m[i][j];
        ||| e == ("Queue Next"@, p + ".queue_next"@) && !c.in_queue
        ||| e == ("Queue Last"@, p + ".queue_last"@) && !c.in_queue
        ||| e == ("Instant Mix"@, p + ".instant_mix"@) && !c.in_queue && p == "song"@
        ||| e == ("Add to Playlist"@, p + ".add_to_playlist_dialog"@)
        ||| e == ("Remove from Playlist"@, p + ".remove_playlist"@) && c.can_remove_from_playlist
        ||| e == ("Go to Album"@, p + ".go_to_album"@) && c.go_to_album
        ||| e == ("Go to Artist"@, p + ".go_to_artist"@) && c.go_to_artist
        ||| e == ("Song Info"@, p + ".show_info_dialog"@) && c.show_info_dialog
        ||| e == ("Copy ID"@, p + ".copy_id"@) && !c.show_info_dialog
    } by {
        if !c.in_queue && i == 0 {
            assert(m[0] == queue_section(p));
        } else if i == base {
            assert(m[i] == playlist_section(c));
        } else if i == base + 1 {
            assert(m[i] == nav);
            if c.go_to_album && j == 0 {
            } else {
                assert(nav[j] == ("Go to Artist"@, p + ".go_to_artist"@));
            }
        } else {
            assert(m[i] == other_section(c));
        }
    }
}

} // verus!
