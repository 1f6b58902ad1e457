//! Catalog entities and search result shapes.

use vstd::prelude::*;
use crate::text::str_eq;

verus! {

/// A song as served to clients.
pub struct Song {
    pub id: String,
    pub name: String,
    /// Comma-joined, deduplicated names of the album(s) the song is on.
    pub album: String,
    /// Comma-joined, deduplicated names of the song's artists.
    pub artist: String,
    pub cover: String,
    pub disc_number: i32,
    pub track_number: i32,
    /// Length in seconds.
    pub duration: i32,
    pub isrc: String,
    pub date: String,
}

/// An artist as served to clients.
pub struct Artist {
    pub id: String,
    pub name: String,
    pub cover: String,
}

/// An album as served to clients.
pub struct Album {
    pub id: String,
    /// Comma-joined, deduplicated names of the album's artists.
    pub artist_name: String,
    pub name: String,
    pub artwork_url: String,
    pub release_date: String,
    pub track_count: i32,
    pub upc: String,
    pub record_label: Option<String>,
}

/// One entry of a search result; the variant is the entity's kind.
pub enum SearchResultItem {
    Song(Song),
    Artist(Artist),
    Album(Album),
}

/// A page of search results.
pub struct AdvancedSearchResult {
    /// Entries in index rank order.
    pub items: Vec<SearchResultItem>,
    /// The index's count of matching documents, taken before hydration and
    /// filtering: an upper bound on what could be served, not `items.len()`.
    pub total: i64,
}

/// The response body of the search endpoint.
pub struct SearchResponse {
    pub data: Vec<SearchResultItem>,
    pub total: i64,
    pub limit: i32,
    pub offset: i32,
}

/// The content of a [`Song`], as values.
pub struct SongView {
    pub id: Seq<char>,
    pub name: Seq<char>,
    pub album: Seq<char>,
    pub artist: Seq<char>,
    pub cover: Seq<char>,
    pub disc_number: i32,
    pub track_number: i32,
    pub duration: i32,
    pub isrc: Seq<char>,
    pub date: Seq<char>,
}

/// The content of an [`Artist`], as values.
pub struct ArtistView {
    pub id: Seq<char>,
    pub name: Seq<char>,
    pub cover: Seq<char>,
}

/// The content of an [`Album`], as values.
pub struct AlbumView {
    pub id: Seq<char>,
    pub artist_name: Seq<char>,
    pub name: Seq<char>,
    pub artwork_url: Seq<char>,
    pub release_date: Seq<char>,
    pub track_count: i32,
    pub upc: Seq<char>,
    pub record_label: Option<Seq<char>>,
}

/// The content of a [`SearchResultItem`], as values.
pub enum ItemView {
    Song(SongView),
    Artist(ArtistView),
    Album(AlbumView),
}

/// The text of an optional string.
pub open spec fn opt_view(o: Option<String>) -> Option<Seq<char>> {
    match o {
        Some(s) => Some(s@),
        None => None,
    }
}

impl View for Song {
    type V = SongView;

    open spec fn view(&self) -> SongView {
        SongView {
            id: self.id@,
            name: self.name@,
            album: self.album@,
            artist: self.artist@,
            cover: self.cover@,
            disc_number: self.disc_number,
            track_number: self.track_number,
            duration: self.duration,
            isrc: self.isrc@,
            date: self.date@,
        }
    }
}

impl View for Artist {
    type V = ArtistView;

    open spec fn view(&self) -> ArtistView {
        ArtistView { id: self.id@, name: self.name@, cover: self.cover@ }
    }
}

impl View for Album {
    type V = AlbumView;

    open spec fn view(&self) -> AlbumView {
        AlbumView {
            id: self.id@,
            artist_name: self.artist_name@,
            name: self.name@,
            artwork_url: self.artwork_url@,
            release_date: self.release_date@,
            track_count: self.track_count,
            upc: self.upc@,
            record_label: opt_view(self.record_label),
        }
    }
}

impl View for SearchResultItem {
    type V = ItemView;

    open spec fn view(&self) -> ItemView {
        match self {
            SearchResultItem::Song(s) => ItemView::Song(s@),
            SearchResultItem::Artist(a) => ItemView::Artist(a@),
            SearchResultItem::Album(a) => ItemView::Album(a@),
        }
    }
}

/// The contents of a sequence of entries.
pub open spec fn items_view(items: Seq<SearchResultItem>) -> Seq<ItemView> {
    items.map_values(|i: SearchResultItem| i@)
}

/// The texts of a sequence of strings.
pub open spec fn texts_view(v: Seq<String>) -> Seq<Seq<char>> {
    v.map_values(|s: String| s@)
}

impl ItemView {
    /// The id of the entity.
    pub open spec fn id(self) -> Seq<char> {
        match self {
            ItemView::Song(s) => s.id,
            ItemView::Artist(a) => a.id,
            ItemView::Album(a) => a.id,
        }
    }
}

/// The three kinds of indexed entity.
#[derive(PartialEq, Eq, Structural, Clone, Copy, Debug)]
pub enum ItemKind {
    Song,
    Artist,
    Album,
}

fn copy_opt(o: &Option<String>) -> (r: Option<String>)
    ensures
        r == *o,
{
    match o {
        Some(s) => Some(s.clone()),
        None => None,
    }
}

impl Clone for Song {
    fn clone(&self) -> (r: Self)
        ensures
            r == *self,
    {
        Song {
            id: self.id.clone(),
            name: self.name.clone(),
            album: self.album.clone(),
            artist: self.artist.clone(),
            cover: self.cover.clone(),
            disc_number: self.disc_number,
            track_number: self.track_number,
            duration: self.duration,
            isrc: self.isrc.clone(),
            date: self.date.clone(),
        }
    }
}

impl Clone for Artist {
    fn clone(&self) -> (r: Self)
        ensures
            r == *self,
    {
        Artist { id: self.id.clone(), name: self.name.clone(), cover: self.cover.clone() }
    }
}

impl Clone for Album {
    fn clone(&self) -> (r: Self)
        ensures
            r == *self,
    {
        Album {
            id: self.id.clone(),
            artist_name: self.artist_name.clone(),
            name: self.name.clone(),
            artwork_url: self.artwork_url.clone(),
            release_date: self.release_date.clone(),
            track_count: self.track_count,
            upc: self.upc.clone(),
            record_label: copy_opt(&self.record_label),
        }
    }
}

/// The label the index stores for each kind.
pub open spec fn kind_label(k: ItemKind) -> Seq<char> {
    match k {
        ItemKind::Song => "song"@,
        ItemKind::Artist => "artist"@,
        ItemKind::Album => "album"@,
    }
}

/// The kind whose label is `s`, if any.
pub open spec fn kind_of_label(s: Seq<char>) -> Option<ItemKind> {
    if s == kind_label(ItemKind::Song) {
        Some(ItemKind::Song)
    } else if s == kind_label(ItemKind::Artist) {
        Some(ItemKind::Artist)
    } else if s == kind_label(ItemKind::Album) {
        Some(ItemKind::Album)
    } else {
        None
    }
}

impl ItemKind {
    /// The label the index stores for this kind.
    pub fn as_str(&self) -> (r: &'static str)
        ensures
            r@ == kind_label(*self),
    {
        match self {
            ItemKind::Song => "song",
            ItemKind::Artist => "artist",
            ItemKind::Album => "album",
        }
    }

    /// The kind with label `s`; `None` for any other text.
    pub fn parse(s: &str) -> (r: Option<ItemKind>)
        ensures
            r == kind_of_label(s@),
    {
        if str_eq(s, "song") {
            Some(ItemKind::Song)
        } else if str_eq(s, "artist") {
            Some(ItemKind::Artist)
        } else if str_eq(s, "album") {
            Some(ItemKind::Album)
        } else {
            None
        }
    }
}

} // verus!
