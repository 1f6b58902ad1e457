//! Batch hydration: turning the relational store's rows for a set of ids
//! into entities, with the consistency guard that drops records whose
//! required associations are gone.

use vstd::prelude::*;
use crate::models::{
    opt_view, Album, AlbumView, Artist, ArtistView, ItemKind, Song, SongView,
};

verus! {

/// One row of the song projection: the song's columns plus the
/// server-side aggregates of its artist and album names.
pub struct SongRow {
    pub id: String,
    pub name: String,
    pub image: String,
    pub duration: Option<i32>,
    pub disc_number: Option<i32>,
    pub track_number: Option<i32>,
    pub isrc: Option<String>,
    pub date: Option<String>,
    pub artist_names: Option<String>,
    pub album_names: Option<String>,
}

/// One row of the artist projection.
pub struct ArtistRow {
    pub id: String,
    pub name: String,
    pub image: String,
}

/// One row of the album projection, with the aggregate of its artist names.
pub struct AlbumRow {
    pub id: String,
    pub name: String,
    pub image: String,
    pub date: Option<String>,
    pub track_count: Option<i32>,
    pub upc: Option<String>,
    pub label: Option<String>,
    pub artist_names: Option<String>,
}

/// The rows one batched query returned, by entity kind.
pub enum BatchRows {
    Songs(Vec<SongRow>),
    Artists(Vec<ArtistRow>),
    Albums(Vec<AlbumRow>),
}

/// One batched relational query: every id of one kind, in one round trip.
pub struct BatchRequest {
    pub kind: ItemKind,
    pub ids: Vec<String>,
}

/// Hydrated entities of a page, looked up by id.
pub struct Batch {
    pub songs: Vec<Song>,
    pub artists: Vec<Artist>,
    pub albums: Vec<Album>,
}

/// The contents of a [`Batch`], as values.
pub struct BatchView {
    pub songs: Seq<SongView>,
    pub artists: Seq<ArtistView>,
    pub albums: Seq<AlbumView>,
}

impl View for Batch {
    type V = BatchView;

    open spec fn view(&self) -> BatchView {
        BatchView {
            songs: self.songs@.map_values(|s: Song| s@),
            artists: self.artists@.map_values(|a: Artist| a@),
            albums: self.albums@.map_values(|a: Album| a@),
        }
    }
}

/// The text of an optional column; a missing value reads as empty.
pub open spec fn text_or_empty(o: Option<String>) -> Seq<char> {
    match o {
        Some(s) => s@,
        None => Seq::empty(),
    }
}

/// An optional integer column with its default.
pub open spec fn int_or(o: Option<i32>, d: i32) -> i32 {
    match o {
        Some(n) => n,
        None => d,
    }
}

/// The consistency guard for songs: both aggregates are non-empty.
pub open spec fn song_row_complete(r: SongRow) -> bool {
    text_or_empty(r.artist_names).len() > 0 && text_or_empty(r.album_names).len() > 0
}

/// The consistency guard for albums: the artist aggregate is non-empty.
pub open spec fn album_row_complete(r: AlbumRow) -> bool {
    text_or_empty(r.artist_names).len() > 0
}

/// The song a row hydrates to, or `None` when the guard drops it.
pub open spec fn song_of_row(r: SongRow) -> Option<SongView> {
    if song_row_complete(r) {
        Some(
            SongView {
                id: r.id@,
                name: r.name@,
                album: text_or_empty(r.album_names),
                artist: text_or_empty(r.artist_names),
                cover: r.image@,
                disc_number: int_or(r.disc_number, 1),
                track_number: int_or(r.track_number, 1),
                duration: int_or(r.duration, 0),
                isrc: text_or_empty(r.isrc),
                date: text_or_empty(r.date),
            },
        )
    } else {
        None
    }
}

/// The artist a row hydrates to; artists have no required association.
pub open spec fn artist_of_row(r: ArtistRow) -> ArtistView {
    ArtistView { id: r.id@, name: r.name@, cover: r.image@ }
}

/// The album a row hydrates to, or `None` when the guard drops it.
pub open spec fn album_of_row(r: AlbumRow) -> Option<AlbumView> {
    if album_row_complete(r) {
        Some(
            AlbumView {
                id: r.id@,
                artist_name: text_or_empty(r.artist_names),
                name: r.name@,
                artwork_url: r.image@,
                release_date: text_or_empty(r.date),
                track_count: int_or(r.track_count, 0),
                upc: text_or_empty(r.upc),
                record_label: opt_view(r.label),
            },
        )
    } else {
        None
    }
}

/// The songs that survive the guard, in row order.
pub open spec fn songs_of_rows(rows: Seq<SongRow>) -> Seq<SongView>
    decreases rows.len(),
{
    if rows.len() == 0 {
        Seq::empty()
    } else {
        let rest = songs_of_rows(rows.drop_last());
        match song_of_row(rows.last()) {
            Some(s) => rest.push(s),
            None => rest,
        }
    }
}

/// The artists of the rows, in row order.
pub open spec fn artists_of_rows(rows: Seq<ArtistRow>) -> Seq<ArtistView> {
    rows.map_values(|r: ArtistRow| artist_of_row(r))
}

/// The albums that survive the guard, in row order.
pub open spec fn albums_of_rows(rows: Seq<AlbumRow>) -> Seq<AlbumView>
    decreases rows.len(),
{
    if rows.len() == 0 {
        Seq::empty()
    } else {
        let rest = albums_of_rows(rows.drop_last());
        match album_of_row(rows.last()) {
            Some(a) => rest.push(a),
            None => rest,
        }
    }
}

/// The batch that a query's rows hydrate to.
pub open spec fn batch_of_rows(rows: BatchRows) -> BatchView {
    match rows {
        BatchRows::Songs(v) => BatchView {
            songs: songs_of_rows(v@),
            artists: Seq::empty(),
            albums: Seq::empty(),
        },
        BatchRows::Artists(v) => BatchView {
            songs: Seq::empty(),
            artists: artists_of_rows(v@),
            albums: Seq::empty(),
        },
        BatchRows::Albums(v) => BatchView {
            songs: Seq::empty(),
            artists: Seq::empty(),
            albums: albums_of_rows(v@),
        },
    }
}

fn text_or_default(o: Option<String>) -> (r: String)
    ensures
        r@ == text_or_empty(o),
{
    match o {
        Some(s) => s,
        None => String::new(),
    }
}

fn int_or_default(o: Option<i32>, d: i32) -> (r: i32)
    ensures
        r == int_or(o, d),
{
    match o {
        Some(n) => n,
        None => d,
    }
}

/// Hydrates one song row; `None` when its artist or album aggregate is empty.
pub fn song_from_row(r: SongRow) -> (s: Option<Song>)
    ensures
        match s {
            Some(x) => song_of_row(r) == Some(x@),
            None => song_of_row(r) is None,
        },
{
    let artist = text_or_default(r.artist_names);
    let album = text_or_default(r.album_names);
    if artist.as_str().is_empty() || album.as_str().is_empty() {
        return None;
    }
    Some(
        Song {
            id: r.id,
            name: r.name,
            album,
            artist,
            cover: r.image,
            disc_number: int_or_default(r.disc_number, 1),
            track_number: int_or_default(r.track_number, 1),
            duration: int_or_default(r.duration, 0),
            isrc: text_or_default(r.isrc),
            date: text_or_default(r.date),
        },
    )
}

/// Hydrates one artist row.
pub fn artist_from_row(r: ArtistRow) -> (a: Artist)
    ensures
        a@ == artist_of_row(r),
{
    Artist { id: r.id, name: r.name, cover: r.image }
}

/// Hydrates one album row; `None` when its artist aggregate is empty.
pub fn album_from_row(r: AlbumRow) -> (a: Option<Album>)
    ensures
        match a {
            Some(x) => album_of_row(r) == Some(x@),
            None => album_of_row(r) is None,
        },
{
    let artist = text_or_default(r.artist_names);
    if artist.as_str().is_empty() {
        return None;
    }
    Some(
        Album {
            id: r.id,
            artist_name: artist,
            name: r.name,
            artwork_url: r.image,
            release_date: text_or_default(r.date),
            track_count: int_or_default(r.track_count, 0),
            upc: text_or_default(r.upc),
            record_label: r.label,
        },
    )
}

/// The id-to-song mapping for a batch: the songs of `rows` that pass the
/// guard, in row order.
pub fn songs_batch(rows: Vec<SongRow>) -> (r: Vec<Song>)
    ensures
        r@.map_values(|s: Song| s@) == songs_of_rows(rows@),
{
    let ghost all = rows@;
    let mut out: Vec<Song> = Vec::new();
    for row in it: rows.into_iter()
        invariant
            it.seq() == all,
            out@.map_values(|s: Song| s@) == songs_of_rows(all.subrange(0, it.index() as int)),
    {
        let ghost k = it.index();
        proof {
            assert(all.subrange(0, k + 1).drop_last() =~= all.subrange(0, k as int));
        }
        match song_from_row(row) {
            Some(s) => {
                out.push(s);
            }
            None => {},
        }
        assert(out@.map_values(|s: Song| s@) =~= songs_of_rows(all.subrange(0, k + 1)));
    }
    assert(all.subrange(0, all.len() as int) =~= all);
    out
}

/// The id-to-artist mapping for a batch, in row order.
pub fn artists_batch(rows: Vec<ArtistRow>) -> (r: Vec<Artist>)
    ensures
        r@.map_values(|a: Artist| a@) == artists_of_rows(rows@),
{
    let ghost all = rows@;
    let mut out: Vec<Artist> = Vec::new();
    for row in it: rows.into_iter()
        invariant
            it.seq() == all,
            out@.len() == it.index(),
            out@.map_values(|a: Artist| a@) == artists_of_rows(all.subrange(0, it.index() as int)),
    {
        let ghost k = it.index();
        let ghost before = out@;
        out.push(artist_from_row(row));
        assert(out@ =~= before.push(out@[k as int]));
        assert(artists_of_rows(all.subrange(0, k + 1)) =~= artists_of_rows(
            all.subrange(0, k as int),
        ).push(artist_of_row(all[k as int])));
        assert(out@.map_values(|a: Artist| a@) =~= artists_of_rows(all.subrange(0, k + 1)));
    }
    assert(all.subrange(0, all.len() as int) =~= all);
    out
}

/// The id-to-album mapping for a batch: the albums of `rows` that pass the
/// guard, in row order.
pub fn albums_batch(rows: Vec<AlbumRow>) -> (r: Vec<Album>)
    ensures
        r@.map_values(|a: Album| a@) == albums_of_rows(rows@),
{
    let ghost all = rows@;
    let mut out: Vec<Album> = Vec::new();
    for row in it: rows.into_iter()
        invariant
            it.seq() == all,
            out@.map_values(|a: Album| a@) == albums_of_rows(all.subrange(0, it.index() as int)),
    {
        let ghost k = it.index();
        proof {
            assert(all.subrange(0, k + 1).drop_last() =~= all.subrange(0, k as int));
        }
        match album_from_row(row) {
            Some(a) => {
                out.push(a);
            }
            None => {},
        }
        assert(out@.map_values(|a: Album| a@) =~= albums_of_rows(all.subrange(0, k + 1)));
    }
    assert(all.subrange(0, all.len() as int) =~= all);
    out
}

/// A batch with no entities, for a page that needs no relational query.
pub fn empty_batch() -> (b: Batch)
    ensures
        b@.songs.len() == 0,
        b@.artists.len() == 0,
        b@.albums.len() == 0,
{
    Batch { songs: Vec::new(), artists: Vec::new(), albums: Vec::new() }
}

/// Hydrates the rows of one batched query.
pub fn fetch_batch(rows: BatchRows) -> (b: Batch)
    ensures
        b@ == batch_of_rows(rows),
{
    let ghost r0 = rows;
    let b = match rows {
        BatchRows::Songs(v) => Batch { songs: songs_batch(v), artists: Vec::new(), albums: Vec::new() },
        BatchRows::Artists(v) => Batch { songs: Vec::new(), artists: artists_batch(v), albums: Vec::new() },
        BatchRows::Albums(v) => Batch { songs: Vec::new(), artists: Vec::new(), albums: albums_batch(v) },
    };
    assert(b@.songs =~= batch_of_rows(r0).songs);
    assert(b@.artists =~= batch_of_rows(r0).artists);
    assert(b@.albums =~= batch_of_rows(r0).albums);
    b
}

/// The relational query a page needs: `None` when the kind is unknown or no
/// id was ranked, so that an empty page costs no round trip; otherwise one
/// query for every ranked id, of the page's kind.
pub fn batch_request(kind: Option<ItemKind>, ids: &Vec<String>) -> (r: Option<BatchRequest>)
    ensures
        r is Some <==> (kind is Some && ids@.len() > 0),
        r matches Some(q) ==> q.kind == kind->0 && q.ids@ == ids@,
{
    match kind {
        None => None,
        Some(k) => {
            if ids.len() == 0 {
                return None;
            }
            let mut copy: Vec<String> = Vec::new();
            let mut i: usize = 0;
            while i < ids.len()
                invariant
                    i <= ids@.len(),
                    copy@ == ids@.subrange(0, i as int),
                decreases ids@.len() - i,
            {
                copy.push(ids[i].clone());
                i = i + 1;
                assert(copy@ =~= ids@.subrange(0, i as int));
            }
            assert(copy@ =~= ids@);
            Some(BatchRequest { kind: k, ids: copy })
        }
    }
}

} // verus!
