//! The query builder: free text and optional filters become a sanitised
//! match expression, an entity kind and the post-filters.

use vstd::prelude::*;
use vstd::string::StringExecFns;
use crate::models::{kind_of_label, ItemKind};
use crate::results::PostFilter;
use crate::text::{sanitize, sanitized};

verus! {

/// A search request: free text, optional kind and filters, and paging.
pub struct SearchQuery {
    pub q: String,
    /// `song`, `artist` or `album`; absent means `song`.
    pub item_type: Option<String>,
    pub artist: Option<String>,
    pub album: Option<String>,
    pub isrc: Option<String>,
    pub upc: Option<String>,
    pub limit: i32,
    pub offset: i32,
}

/// The page size used when a request gives none.
pub fn default_limit() -> (r: i32)
    ensures
        r == 20,
{
    20
}

/// The kind label the index query is restricted to: `song` when the request
/// names none, else the requested label, sanitised.
pub open spec fn type_label(q: SearchQuery) -> Seq<char> {
    match q.item_type {
        Some(t) => sanitized(t@),
        None => "song"@,
    }
}

/// The kind of entity a request asks for; `None` for an unknown label.
pub open spec fn query_kind(q: SearchQuery) -> Option<ItemKind> {
    kind_of_label(type_label(q))
}

/// ` <marker> <sanitised text>` for a present filter, nothing otherwise.
pub open spec fn field_clause(marker: Seq<char>, f: Option<String>) -> Seq<char> {
    match f {
        Some(t) => " "@ + marker + " "@ + sanitized(t@),
        None => Seq::empty(),
    }
}

/// The match expression: the sanitised free text, then the artist and album
/// filter texts as clauses restricted to their fields.
pub open spec fn match_expression(q: SearchQuery) -> Seq<char> {
    sanitized(q.q@) + field_clause("@artist_name"@, q.artist) + field_clause("@album_name"@, q.album)
}

/// The post-filters a request carries.
pub open spec fn filters_of(q: SearchQuery) -> PostFilter {
    PostFilter { artist: q.artist, album: q.album, isrc: q.isrc, upc: q.upc }
}

fn append_clause(out: &mut String, marker: &str, f: &Option<String>)
    ensures
        final(out)@ == old(out)@ + field_clause(marker@, *f),
{
    match f {
        Some(t) => {
            out.append(" ");
            out.append(marker);
            out.append(" ");
            let clean = sanitize(t.as_str());
            out.append(clean.as_str());
            assert(final(out)@ =~= old(out)@ + field_clause(marker@, *f));
        },
        None => {
            assert(final(out)@ =~= old(out)@ + field_clause(marker@, *f));
        },
    }
}

fn copy_text(o: &Option<String>) -> (r: Option<String>)
    ensures
        r == *o,
{
    match o {
        Some(s) => Some(s.clone()),
        None => None,
    }
}

impl SearchQuery {
    /// The match expression of this request.
    pub fn match_expression(&self) -> (r: String)
        ensures
            r@ == match_expression(*self),
    {
        let mut out = sanitize(self.q.as_str());
        append_clause(&mut out, "@artist_name", &self.artist);
        append_clause(&mut out, "@album_name", &self.album);
        out
    }

    /// The kind label the index query is restricted to.
    pub fn type_label(&self) -> (r: String)
        ensures
            r@ == type_label(*self),
    {
        match &self.item_type {
            Some(t) => sanitize(t.as_str()),
            None => String::from_str("song"),
        }
    }

    /// The kind of entity this request asks for; `None` for an unknown label.
    pub fn kind(&self) -> (r: Option<ItemKind>)
        ensures
            r == query_kind(*self),
    {
        let label = self.type_label();
        ItemKind::parse(label.as_str())
    }

    /// The post-filters this request carries.
    pub fn filters(&self) -> (r: PostFilter)
        ensures
            r == filters_of(*self),
    {
        PostFilter {
            artist: copy_text(&self.artist),
            album: copy_text(&self.album),
            isrc: copy_text(&self.isrc),
            upc: copy_text(&self.upc),
        }
    }
}

} // verus!
