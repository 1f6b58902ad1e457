//! The post-filter and the result assembler: ranked ids plus a hydrated
//! batch become a page of entries, in rank order.

use vstd::prelude::*;
use crate::hydrate::{albums_of_rows, songs_of_rows, AlbumRow, Batch, BatchView, SongRow};
use crate::index::ranked_ids_of;
use crate::json::JsonValue;
use crate::models::{
    items_view, texts_view, AdvancedSearchResult, Album, AlbumView, Artist, ArtistView, ItemKind,
    ItemView, SearchResultItem, Song, SongView,
};
use crate::text::{contains_folded, contains_ignore_case, equal_folded, equals_ignore_case};

verus! {

/// Filters the index cannot express, applied after hydration. Each is
/// optional and case-insensitive.
pub struct PostFilter {
    /// Substring of a song's or album's artists, or of an artist's name.
    pub artist: Option<String>,
    /// Substring of a song's albums.
    pub album: Option<String>,
    /// A song's ISRC, exactly.
    pub isrc: Option<String>,
    /// An album's UPC, exactly.
    pub upc: Option<String>,
}

/// No filter, or `hay` holds the filter text, ignoring case.
pub open spec fn contains_opt(hay: Seq<char>, f: Option<String>) -> bool {
    match f {
        Some(n) => contains_folded(hay, n@),
        None => true,
    }
}

/// No filter, or `v` equals the filter text, ignoring case.
pub open spec fn equals_opt(v: Seq<char>, f: Option<String>) -> bool {
    match f {
        Some(n) => equal_folded(v, n@),
        None => true,
    }
}

pub open spec fn song_matches(s: SongView, f: PostFilter) -> bool {
    contains_opt(s.artist, f.artist) && contains_opt(s.album, f.album) && equals_opt(s.isrc, f.isrc)
}

pub open spec fn artist_matches(a: ArtistView, f: PostFilter) -> bool {
    contains_opt(a.name, f.artist)
}

pub open spec fn album_matches(a: AlbumView, f: PostFilter) -> bool {
    contains_opt(a.artist_name, f.artist) && equals_opt(a.upc, f.upc)
}

/// The first song of `b` with id `id`.
pub open spec fn lookup_song(b: Seq<SongView>, id: Seq<char>) -> Option<SongView>
    decreases b.len(),
{
    if b.len() == 0 {
        None
    } else if b[0].id == id {
        Some(b[0])
    } else {
        lookup_song(b.drop_first(), id)
    }
}

/// The first artist of `b` with id `id`.
pub open spec fn lookup_artist(b: Seq<ArtistView>, id: Seq<char>) -> Option<ArtistView>
    decreases b.len(),
{
    if b.len() == 0 {
        None
    } else if b[0].id == id {
        Some(b[0])
    } else {
        lookup_artist(b.drop_first(), id)
    }
}

/// The first album of `b` with id `id`.
pub open spec fn lookup_album(b: Seq<AlbumView>, id: Seq<char>) -> Option<AlbumView>
    decreases b.len(),
{
    if b.len() == 0 {
        None
    } else if b[0].id == id {
        Some(b[0])
    } else {
        lookup_album(b.drop_first(), id)
    }
}

/// The entry served for ranked id `id`: its hydrated entity of kind `kind`,
/// when there is one and it passes the filters.
pub open spec fn entry_for(kind: ItemKind, b: BatchView, f: PostFilter, id: Seq<char>) -> Option<
    ItemView,
> {
    match kind {
        ItemKind::Song => match lookup_song(b.songs, id) {
            Some(s) => if song_matches(s, f) {
                Some(ItemView::Song(s))
            } else {
                None
            },
            None => None,
        },
        ItemKind::Artist => match lookup_artist(b.artists, id) {
            Some(a) => if artist_matches(a, f) {
                Some(ItemView::Artist(a))
            } else {
                None
            },
            None => None,
        },
        ItemKind::Album => match lookup_album(b.albums, id) {
            Some(a) => if album_matches(a, f) {
                Some(ItemView::Album(a))
            } else {
                None
            },
            None => None,
        },
    }
}

/// The entries for `ids`, in rank order; ids without an entry are skipped.
pub open spec fn ranked_items(kind: ItemKind, ids: Seq<Seq<char>>, b: BatchView, f: PostFilter) -> Seq<
    ItemView,
>
    decreases ids.len(),
{
    if ids.len() == 0 {
        Seq::empty()
    } else {
        let rest = ranked_items(kind, ids.drop_last(), b, f);
        match entry_for(kind, b, f, ids.last()) {
            Some(e) => rest.push(e),
            None => rest,
        }
    }
}

/// The entries of a page: none when the requested kind is unknown.
pub open spec fn page_items(kind: Option<ItemKind>, ids: Seq<Seq<char>>, b: BatchView, f: PostFilter) -> Seq<
    ItemView,
> {
    match kind {
        Some(k) => ranked_items(k, ids, b, f),
        None => Seq::empty(),
    }
}

fn contains_opt_exec(hay: &str, f: &Option<String>) -> (r: bool)
    ensures
        r == contains_opt(hay@, *f),
{
    match f {
        Some(n) => contains_ignore_case(hay, n.as_str()),
        None => true,
    }
}

fn equals_opt_exec(v: &str, f: &Option<String>) -> (r: bool)
    ensures
        r == equals_opt(v@, *f),
{
    match f {
        Some(n) => equals_ignore_case(v, n.as_str()),
        None => true,
    }
}

/// Whether a song passes the artist, album and ISRC filters.
pub fn song_passes(s: &Song, f: &PostFilter) -> (r: bool)
    ensures
        r == song_matches(s@, *f),
{
    contains_opt_exec(s.artist.as_str(), &f.artist) && contains_opt_exec(s.album.as_str(), &f.album)
        && equals_opt_exec(s.isrc.as_str(), &f.isrc)
}

/// Whether an artist passes the artist filter, applied to its name.
pub fn artist_passes(a: &Artist, f: &PostFilter) -> (r: bool)
    ensures
        r == artist_matches(a@, *f),
{
    contains_opt_exec(a.name.as_str(), &f.artist)
}

/// Whether an album passes the artist and UPC filters.
pub fn album_passes(a: &Album, f: &PostFilter) -> (r: bool)
    ensures
        r == album_matches(a@, *f),
{
    contains_opt_exec(a.artist_name.as_str(), &f.artist) && equals_opt_exec(a.upc.as_str(), &f.upc)
}

fn find_song<'a>(b: &'a Vec<Song>, id: &str) -> (r: Option<&'a Song>)
    ensures
        match r {
            Some(s) => lookup_song(b@.map_values(|x: Song| x@), id@) == Some(s@),
            None => lookup_song(b@.map_values(|x: Song| x@), id@) is None,
        },
{
    let ghost v = b@.map_values(|x: Song| x@);
    let mut i: usize = 0;
    assert(v.subrange(0, v.len() as int) =~= v);
    while i < b.len()
        invariant
            i <= b@.len(),
            v == b@.map_values(|x: Song| x@),
            lookup_song(v, id@) == lookup_song(v.subrange(i as int, v.len() as int), id@),
        decreases b@.len() - i,
    {
        proof {
            let rest = v.subrange(i as int, v.len() as int);
            assert(rest.drop_first() =~= v.subrange(i + 1, v.len() as int));
            assert(rest[0] == b@[i as int]@);
        }
        if crate::text::str_eq(b[i].id.as_str(), id) {
            return Some(&b[i]);
        }
        i = i + 1;
    }
    None
}

fn find_artist<'a>(b: &'a Vec<Artist>, id: &str) -> (r: Option<&'a Artist>)
    ensures
        match r {
            Some(a) => lookup_artist(b@.map_values(|x: Artist| x@), id@) == Some(a@),
            None => lookup_artist(b@.map_values(|x: Artist| x@), id@) is None,
        },
{
    let ghost v = b@.map_values(|x: Artist| x@);
    let mut i: usize = 0;
    assert(v.subrange(0, v.len() as int) =~= v);
    while i < b.len()
        invariant
            i <= b@.len(),
            v == b@.map_values(|x: Artist| x@),
            lookup_artist(v, id@) == lookup_artist(v.subrange(i as int, v.len() as int), id@),
        decreases b@.len() - i,
    {
        proof {
            let rest = v.subrange(i as int, v.len() as int);
            assert(rest.drop_first() =~= v.subrange(i + 1, v.len() as int));
            assert(rest[0] == b@[i as int]@);
        }
        if crate::text::str_eq(b[i].id.as_str(), id) {
            return Some(&b[i]);
        }
        i = i + 1;
    }
    None
}

fn find_album<'a>(b: &'a Vec<Album>, id: &str) -> (r: Option<&'a Album>)
    ensures
        match r {
            Some(a) => lookup_album(b@.map_values(|x: Album| x@), id@) == Some(a@),
            None => lookup_album(b@.map_values(|x: Album| x@), id@) is None,
        },
{
    let ghost v = b@.map_values(|x: Album| x@);
    let mut i: usize = 0;
    assert(v.subrange(0, v.len() as int) =~= v);
    while i < b.len()
        invariant
            i <= b@.len(),
            v == b@.map_values(|x: Album| x@),
            lookup_album(v, id@) == lookup_album(v.subrange(i as int, v.len() as int), id@),
        decreases b@.len() - i,
    {
        proof {
            let rest = v.subrange(i as int, v.len() as int);
            assert(rest.drop_first() =~= v.subrange(i + 1, v.len() as int));
            assert(rest[0] == b@[i as int]@);
        }
        if crate::text::str_eq(b[i].id.as_str(), id) {
            return Some(&b[i]);
        }
        i = i + 1;
    }
    None
}

/// The entry served for one ranked id.
pub fn entry(kind: ItemKind, b: &Batch, f: &PostFilter, id: &str) -> (r: Option<SearchResultItem>)
    ensures
        match r {
            Some(e) => entry_for(kind, b@, *f, id@) == Some(e@),
            None => entry_for(kind, b@, *f, id@) is None,
        },
{
    match kind {
        ItemKind::Song => match find_song(&b.songs, id) {
            Some(s) => if song_passes(s, f) {
                Some(SearchResultItem::Song(s.clone()))
            } else {
                None
            },
            None => None,
        },
        ItemKind::Artist => match find_artist(&b.artists, id) {
            Some(a) => if artist_passes(a, f) {
                Some(SearchResultItem::Artist(a.clone()))
            } else {
                None
            },
            None => None,
        },
        ItemKind::Album => match find_album(&b.albums, id) {
            Some(a) => if album_passes(a, f) {
                Some(SearchResultItem::Album(a.clone()))
            } else {
                None
            },
            None => None,
        },
    }
}

/// Assembles a page: for each ranked id in order, the hydrated entity that
/// passes the filters; `total` is passed through untouched, so it stays the
/// index's count whatever the guard and the filters removed.
pub fn assemble(
    kind: Option<ItemKind>,
    ids: &Vec<String>,
    batch: &Batch,
    filter: &PostFilter,
    total: i64,
) -> (r: AdvancedSearchResult)
    ensures
        r.total == total,
        items_view(r.items@) == page_items(kind, texts_view(ids@), batch@, *filter),
{
    let mut items: Vec<SearchResultItem> = Vec::new();
    match kind {
        None => {
            assert(items_view(items@) =~= Seq::empty());
        },
        Some(k) => {
            let ghost idv = texts_view(ids@);
            let mut i: usize = 0;
            assert(idv.subrange(0, 0) =~= Seq::empty());
            assert(items_view(items@) =~= Seq::empty());
            while i < ids.len()
                invariant
                    i <= ids@.len(),
                    idv == texts_view(ids@),
                    items_view(items@) == ranked_items(k, idv.subrange(0, i as int), batch@, *filter),
                decreases ids@.len() - i,
            {
                let ghost before = items@;
                proof {
                    assert(idv.subrange(0, i + 1).drop_last() =~= idv.subrange(0, i as int));
                    assert(idv.subrange(0, i + 1).last() == ids@[i as int]@);
                }
                match entry(k, batch, filter, ids[i].as_str()) {
                    Some(e) => {
                        items.push(e);
                        assert(items_view(items@) =~= items_view(before).push(e@));
                    },
                    None => {},
                }
                i = i + 1;
            }
            assert(idv.subrange(0, ids@.len() as int) =~= idv);
        },
    }
    AdvancedSearchResult { items, total }
}

proof fn lemma_lookup_song(b: Seq<SongView>, id: Seq<char>)
    ensures
        lookup_song(b, id) matches Some(s) ==> s.id == id && b.contains(s),
    decreases b.len(),
{
    if b.len() > 0 && b[0].id != id {
        lemma_lookup_song(b.drop_first(), id);
        if let Some(s) = lookup_song(b.drop_first(), id) {
            let j = choose|j: int| 0 <= j < b.drop_first().len() && b.drop_first()[j] == s;
            assert(b[j + 1] == s);
        }
    }
}

proof fn lemma_lookup_artist(b: Seq<ArtistView>, id: Seq<char>)
    ensures
        lookup_artist(b, id) matches Some(a) ==> a.id == id,
    decreases b.len(),
{
    if b.len() > 0 && b[0].id != id {
        lemma_lookup_artist(b.drop_first(), id);
    }
}

proof fn lemma_lookup_album(b: Seq<AlbumView>, id: Seq<char>)
    ensures
        lookup_album(b, id) matches Some(a) ==> a.id == id && b.contains(a),
    decreases b.len(),
{
    if b.len() > 0 && b[0].id != id {
        lemma_lookup_album(b.drop_first(), id);
        if let Some(a) = lookup_album(b.drop_first(), id) {
            let j = choose|j: int| 0 <= j < b.drop_first().len() && b.drop_first()[j] == a;
            assert(b[j + 1] == a);
        }
    }
}

proof fn lemma_entry_id(kind: ItemKind, b: BatchView, f: PostFilter, id: Seq<char>)
    ensures
        entry_for(kind, b, f, id) matches Some(e) ==> e.id() == id,
{
    lemma_lookup_song(b.songs, id);
    lemma_lookup_artist(b.artists, id);
    lemma_lookup_album(b.albums, id);
}

/// `pos` places the entries `items` at strictly increasing positions of `ids`,
/// each at the position of its own id.
pub open spec fn rank_embedding(pos: Seq<int>, items: Seq<ItemView>, ids: Seq<Seq<char>>) -> bool {
    &&& pos.len() == items.len()
    &&& forall|k: int| 0 <= k < pos.len() ==> 0 <= #[trigger] pos[k] < ids.len() && items[k].id() == ids[pos[k]]
    &&& forall|j: int, k: int| 0 <= j < k < pos.len() ==> pos[j] < pos[k]
}

/// Rank order is kept: a page never holds more entries than ranked ids, and
/// its entries stand in the order of their ids' rank positions (guard and
/// filters only remove entries, never reorder them).
pub proof fn lemma_rank_order(kind: ItemKind, ids: Seq<Seq<char>>, b: BatchView, f: PostFilter)
    ensures
        ranked_items(kind, ids, b, f).len() <= ids.len(),
        exists|pos: Seq<int>| rank_embedding(pos, ranked_items(kind, ids, b, f), ids),
    decreases ids.len(),
{
    if ids.len() == 0 {
        assert(rank_embedding(Seq::empty(), ranked_items(kind, ids, b, f), ids));
    } else {
        let front = ids.drop_last();
        lemma_rank_order(kind, front, b, f);
        let rest = ranked_items(kind, front, b, f);
        let pos0 = choose|pos: Seq<int>| rank_embedding(pos, rest, front);
        lemma_entry_id(kind, b, f, ids.last());
        match entry_for(kind, b, f, ids.last()) {
            Some(e) => {
                let pos = pos0.push(ids.len() - 1);
                let items = rest.push(e);
                assert forall|k: int| 0 <= k < pos.len() implies 0 <= #[trigger] pos[k] < ids.len()
                    && items[k].id() == ids[pos[k]] by {
                    if k < pos0.len() {
                        assert(pos[k] == pos0[k]);
                        assert(items[k] == rest[k]);
                        assert(ids[pos0[k]] == front[pos0[k]]);
                    }
                }
                assert(rank_embedding(pos, items, ids));
            },
            None => {
                assert forall|k: int| 0 <= k < pos0.len() implies 0 <= #[trigger] pos0[k] < ids.len()
                    && rest[k].id() == ids[pos0[k]] by {
                    assert(ids[pos0[k]] == front[pos0[k]]);
                }
                assert(rank_embedding(pos0, rest, ids));
            },
        }
    }
}

/// A page built from a search response holds at most `limit` entries, and
/// they follow the rank order of the response's ids.
pub proof fn lemma_page_within_limit(
    kind: ItemKind,
    resp: JsonValue,
    id_field: Seq<char>,
    label: Option<Seq<char>>,
    limit: int,
    b: BatchView,
    f: PostFilter,
)
    ensures
        ranked_items(kind, ranked_ids_of(resp, id_field, label, limit), b, f).len() <= (if limit < 0 {
            0
        } else {
            limit
        }),
        exists|pos: Seq<int>|
            rank_embedding(
                pos,
                ranked_items(kind, ranked_ids_of(resp, id_field, label, limit), b, f),
                ranked_ids_of(resp, id_field, label, limit),
            ),
{
    lemma_rank_order(kind, ranked_ids_of(resp, id_field, label, limit), b, f);
}

proof fn lemma_songs_of_rows_complete(rows: Seq<SongRow>)
    ensures
        forall|k: int| 0 <= k < songs_of_rows(rows).len() ==> (#[trigger] songs_of_rows(rows)[k]).artist.len() > 0
            && songs_of_rows(rows)[k].album.len() > 0,
    decreases rows.len(),
{
    if rows.len() > 0 {
        let rest = songs_of_rows(rows.drop_last());
        lemma_songs_of_rows_complete(rows.drop_last());
        assert forall|k: int| 0 <= k < songs_of_rows(rows).len() implies (#[trigger] songs_of_rows(
            rows,
        )[k]).artist.len() > 0 && songs_of_rows(rows)[k].album.len() > 0 by {
            if k < rest.len() {
                assert(songs_of_rows(rows)[k] == rest[k]);
            }
        }
    }
}

proof fn lemma_song_entries_from(ids: Seq<Seq<char>>, b: BatchView, f: PostFilter)
    ensures
        forall|k: int| 0 <= k < ranked_items(ItemKind::Song, ids, b, f).len() ==> {
            let e = #[trigger] ranked_items(ItemKind::Song, ids, b, f)[k];
            e matches ItemView::Song(s) && b.songs.contains(s)
        },
    decreases ids.len(),
{
    if ids.len() > 0 {
        lemma_song_entries_from(ids.drop_last(), b, f);
        lemma_lookup_song(b.songs, ids.last());
    }
}

/// The consistency guard holds of every page of songs: a song whose artist or
/// album aggregate came back empty from the relational store is never served.
pub proof fn lemma_guard_excludes_orphans(ids: Seq<Seq<char>>, rows: Seq<SongRow>, f: PostFilter)
    ensures
        forall|k: int| 0 <= k < ranked_items(ItemKind::Song, ids, songs_only(rows), f).len() ==> {
            let e = #[trigger] ranked_items(ItemKind::Song, ids, songs_only(rows), f)[k];
            e matches ItemView::Song(s) && s.artist.len() > 0 && s.album.len() > 0
        },
{
    lemma_song_entries_from(ids, songs_only(rows), f);
    lemma_songs_of_rows_complete(rows);
    assert forall|k: int| 0 <= k < ranked_items(ItemKind::Song, ids, songs_only(rows), f).len() implies {
        let e = #[trigger] ranked_items(ItemKind::Song, ids, songs_only(rows), f)[k];
        e matches ItemView::Song(s) && s.artist.len() > 0 && s.album.len() > 0
    } by {
        let e = ranked_items(ItemKind::Song, ids, songs_only(rows), f)[k];
        if let ItemView::Song(s) = e {
            let j = choose|j: int| 0 <= j < songs_of_rows(rows).len() && songs_of_rows(rows)[j] == s;
        }
    }
}

proof fn lemma_albums_of_rows_complete(rows: Seq<AlbumRow>)
    ensures
        forall|k: int| 0 <= k < albums_of_rows(rows).len() ==> (#[trigger] albums_of_rows(rows)[k]).artist_name.len() > 0,
    decreases rows.len(),
{
    if rows.len() > 0 {
        let rest = albums_of_rows(rows.drop_last());
        lemma_albums_of_rows_complete(rows.drop_last());
        assert forall|k: int| 0 <= k < albums_of_rows(rows).len() implies (#[trigger] albums_of_rows(
            rows,
        )[k]).artist_name.len() > 0 by {
            if k < rest.len() {
                assert(albums_of_rows(rows)[k] == rest[k]);
            }
        }
    }
}

proof fn lemma_album_entries_from(ids: Seq<Seq<char>>, b: BatchView, f: PostFilter)
    ensures
        forall|k: int| 0 <= k < ranked_items(ItemKind::Album, ids, b, f).len() ==> {
            let e = #[trigger] ranked_items(ItemKind::Album, ids, b, f)[k];
            e matches ItemView::Album(a) && b.albums.contains(a)
        },
    decreases ids.len(),
{
    if ids.len() > 0 {
        lemma_album_entries_from(ids.drop_last(), b, f);
        lemma_lookup_album(b.albums, ids.last());
    }
}

/// The consistency guard holds of every page of albums: an album whose
/// artist aggregate came back empty is never served.
pub proof fn lemma_album_guard(ids: Seq<Seq<char>>, rows: Seq<AlbumRow>, f: PostFilter)
    ensures
        forall|k: int| 0 <= k < ranked_items(ItemKind::Album, ids, albums_only(rows), f).len() ==> {
            let e = #[trigger] ranked_items(ItemKind::Album, ids, albums_only(rows), f)[k];
            e matches ItemView::Album(a) && a.artist_name.len() > 0
        },
{
    lemma_album_entries_from(ids, albums_only(rows), f);
    lemma_albums_of_rows_complete(rows);
    assert forall|k: int| 0 <= k < ranked_items(ItemKind::Album, ids, albums_only(rows), f).len() implies {
        let e = #[trigger] ranked_items(ItemKind::Album, ids, albums_only(rows), f)[k];
        e matches ItemView::Album(a) && a.artist_name.len() > 0
    } by {
        let e = ranked_items(ItemKind::Album, ids, albums_only(rows), f)[k];
        if let ItemView::Album(a) = e {
            let j = choose|j: int| 0 <= j < albums_of_rows(rows).len() && albums_of_rows(rows)[j] == a;
        }
    }
}

/// The batch that an album query's rows hydrate to.
pub open spec fn albums_only(rows: Seq<AlbumRow>) -> BatchView {
    BatchView { songs: Seq::empty(), artists: Seq::empty(), albums: albums_of_rows(rows) }
}

/// The batch that a song query's rows hydrate to.
pub open spec fn songs_only(rows: Seq<SongRow>) -> BatchView {
    BatchView { songs: songs_of_rows(rows), artists: Seq::empty(), albums: Seq::empty() }
}

} // verus!
