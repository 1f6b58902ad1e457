//! The id-only index backend (Manticore over its SQL endpoint): the search
//! returns ranked ids, and a count over the same expression runs beside it.

use vstd::prelude::*;
use vstd::string::StringExecFns;
use crate::api::is_omid;
use crate::index::{count_in, count_of, hits, hits_of, ranked_ids, ranked_ids_of, source_field, source_text};
use crate::json::JsonValue;
use crate::models::{kind_label, texts_view, ItemKind};
use crate::query::{match_expression, type_label, SearchQuery};
use crate::text::{decimal, render_int};

verus! {

/// Where the index lives and which table it searches.
pub struct SearchClient {
    /// Base URL of the index's HTTP endpoint.
    pub url: String,
    pub index_name: String,
}

/// The per-field weights of the relevance ranking: name above artist above album.
pub open spec fn field_weights() -> Seq<char> {
    " OPTION field_weights=(name=3, artist_name=2, album_name=1)"@
}

/// `MATCH('<expr>') AND item_type='<label>'` for a request.
pub open spec fn where_clause(q: SearchQuery) -> Seq<char> {
    " WHERE MATCH('"@ + match_expression(q) + "') AND item_type='"@ + type_label(q) + "'"@
}

/// The ranked-ids statement: one page of doc ids, by relevance.
pub open spec fn search_sql(index: Seq<char>, q: SearchQuery) -> Seq<char> {
    "SELECT doc_id FROM "@ + index + where_clause(q) + " LIMIT "@ + decimal(q.offset as int) + ", "@
        + decimal(q.limit as int) + field_weights()
}

/// The count statement over the same expression; it does not depend on paging.
pub open spec fn count_sql(index: Seq<char>, q: SearchQuery) -> Seq<char> {
    "SELECT COUNT(*) as cnt FROM "@ + index + where_clause(q)
}

/// The point-get statement for one document's kind.
pub open spec fn point_get_sql(index: Seq<char>, id: Seq<char>) -> Seq<char> {
    "SELECT item_type FROM "@ + index + " WHERE doc_id='"@ + id + "'"@
}

/// Whether a point-get response names a document of kind `kind`.
pub open spec fn document_is_kind(resp: JsonValue, kind: ItemKind) -> bool {
    hits_of(resp).len() > 0 && source_text(hits_of(resp)[0], "item_type"@) == Some(kind_label(kind))
}

/// Two requests that differ at most in their paging.
pub open spec fn same_but_paging(a: SearchQuery, b: SearchQuery) -> bool {
    a.q == b.q && a.item_type == b.item_type && a.artist == b.artist && a.album == b.album
        && a.isrc == b.isrc && a.upc == b.upc
}

/// The total is stable across paging: requests that differ only in limit and
/// offset share their count statement, so they report the same total.
pub proof fn lemma_count_ignores_paging(index: Seq<char>, a: SearchQuery, b: SearchQuery)
    requires
        same_but_paging(a, b),
    ensures
        count_sql(index, a) == count_sql(index, b),
{
}

fn where_text(q: &SearchQuery) -> (r: String)
    ensures
        r@ == where_clause(*q),
{
    let mut s = String::from_str(" WHERE MATCH('");
    let m = q.match_expression();
    s.append(m.as_str());
    s.append("') AND item_type='");
    let t = q.type_label();
    s.append(t.as_str());
    s.append("'");
    assert(s@ =~= where_clause(*q));
    s
}

impl SearchClient {
    /// A client for the index at `manticore_url`, searching table `music`.
    pub fn new(manticore_url: &str) -> (r: SearchClient)
        ensures
            r.url@ == manticore_url@,
            r.index_name@ == "music"@,
    {
        SearchClient { url: manticore_url.to_owned(), index_name: String::from_str("music") }
    }

    /// The statement that creates the search table when it is missing.
    pub fn create_table_statement(&self) -> (r: String)
        ensures
            r@ == "CREATE TABLE IF NOT EXISTS "@ + self.index_name@
                + " (doc_id string, name text, artist_name text, album_name text, item_type string, duration int, date string) min_prefix_len='2'"@,
    {
        let mut s = String::from_str("CREATE TABLE IF NOT EXISTS ");
        s.append(self.index_name.as_str());
        s.append(
            " (doc_id string, name text, artist_name text, album_name text, item_type string, duration int, date string) min_prefix_len='2'",
        );
        s
    }

    /// The ranked-ids statement of a request.
    pub fn search_statement(&self, q: &SearchQuery) -> (r: String)
        ensures
            r@ == search_sql(self.index_name@, *q),
    {
        let mut s = String::from_str("SELECT doc_id FROM ");
        s.append(self.index_name.as_str());
        let w = where_text(q);
        s.append(w.as_str());
        s.append(" LIMIT ");
        let o = render_int(q.offset as i64);
        s.append(o.as_str());
        s.append(", ");
        let l = render_int(q.limit as i64);
        s.append(l.as_str());
        s.append(" OPTION field_weights=(name=3, artist_name=2, album_name=1)");
        assert(s@ =~= search_sql(self.index_name@, *q));
        s
    }

    /// The count statement of a request.
    pub fn count_statement(&self, q: &SearchQuery) -> (r: String)
        ensures
            r@ == count_sql(self.index_name@, *q),
    {
        let mut s = String::from_str("SELECT COUNT(*) as cnt FROM ");
        s.append(self.index_name.as_str());
        let w = where_text(q);
        s.append(w.as_str());
        assert(s@ =~= count_sql(self.index_name@, *q));
        s
    }

    /// The statement counting every document of the table.
    pub fn count_all_statement(&self) -> (r: String)
        ensures
            r@ == "SELECT COUNT(*) as cnt FROM "@ + self.index_name@,
    {
        let mut s = String::from_str("SELECT COUNT(*) as cnt FROM ");
        s.append(self.index_name.as_str());
        s
    }

    /// The point-get statement for the document `id`.
    pub fn point_get_statement(&self, id: &str) -> (r: String)
        requires
            is_omid(id@),
        ensures
            r@ == point_get_sql(self.index_name@, id@),
    {
        let mut s = String::from_str("SELECT item_type FROM ");
        s.append(self.index_name.as_str());
        s.append(" WHERE doc_id='");
        s.append(id);
        s.append("'");
        assert(s@ =~= point_get_sql(self.index_name@, id@));
        s
    }

    /// The ranked ids of a search response: each hit's `_source.doc_id`, in
    /// rank order, at most `limit` of them.
    pub fn ranked_ids(&self, resp: &JsonValue, limit: i32) -> (r: Vec<String>)
        ensures
            texts_view(r@) == ranked_ids_of(*resp, "doc_id"@, None, limit as int),
            r@.len() <= (if limit < 0 { 0 } else { limit as int }),
    {
        ranked_ids(resp, "doc_id", None, limit)
    }

    /// The total a count response carries: the first hit's `_source.cnt`, or 0.
    pub fn total(&self, resp: &JsonValue) -> (r: i64)
        ensures
            r == count_of(*resp),
    {
        count_in(resp)
    }

    /// Whether a point-get response names a document of kind `kind`; a
    /// lookup answers absent otherwise, without touching the relational store.
    pub fn document_is(&self, resp: &JsonValue, kind: ItemKind) -> (r: bool)
        ensures
            r == document_is_kind(*resp, kind),
    {
        let hs = hits(resp);
        if hs.len() == 0 {
            return false;
        }
        match source_field(&hs[0], "item_type") {
            Some(t) => {
                let want = kind.as_str();
                crate::text::str_eq(t, want)
            },
            None => false,
        }
    }
}

} // verus!
