//! The full-projection index backend (Elasticsearch): one search request
//! carries the relevance query, the page and the hit count.

use vstd::prelude::*;
use vstd::string::StringExecFns;
use crate::index::{ranked_ids, ranked_ids_of, source_text};
use crate::json::{lemma_member_found, member, single, JsonValue};
use crate::models::{kind_label, texts_view, ItemKind};
use crate::query::{type_label, SearchQuery};
use crate::text::{sanitize, sanitized};

verus! {

/// Where the index lives and which index it searches.
pub struct SearchClient {
    /// Base URL of the cluster.
    pub url: String,
    pub index_name: String,
}

/// A JSON array whose elements are the strings `texts`, in order.
pub open spec fn is_text_list(v: JsonValue, texts: Seq<Seq<char>>) -> bool {
    match v.elements() {
        Some(es) => es.len() == texts.len() && forall|i: int|
            0 <= i < es.len() ==> (#[trigger] es[i]).str_value() == Some(texts[i]),
        None => false,
    }
}

/// The fields searched, with their boosts: name above artist above album.
pub open spec fn boosted_fields() -> Seq<Seq<char>> {
    seq!["name^3"@, "artist_name^2"@, "album_name"@]
}

/// The relevance clause: the sanitised text over the boosted fields, with
/// automatic fuzziness and an exact prefix of two characters.
pub open spec fn is_relevance_clause(m: JsonValue, text: Seq<char>) -> bool {
    &&& m.at("query"@).str_value() == Some(text)
    &&& is_text_list(m.at("fields"@), boosted_fields())
    &&& m.at("type"@).str_value() == Some("best_fields"@)
    &&& m.at("fuzziness"@).str_value() == Some("AUTO"@)
    &&& m.at("prefix_length"@) == JsonValue::Int(2)
}

/// A required `match` clause of `field` on the sanitised filter text.
pub open spec fn is_field_clause(c: JsonValue, field: Seq<char>, f: String) -> bool {
    c.at("match"@).at(field).str_value() == Some(sanitized(f@))
}

/// 1 for a present filter, 0 otherwise.
pub open spec fn present(f: Option<String>) -> int {
    if f is Some { 1 } else { 0 }
}

/// The search body of a request: the relevance clause, then the artist and
/// album filter clauses, all required; the kind as a filter; the page; and
/// only `id` and `item_type` of each hit's source.
pub open spec fn is_search_body(r: JsonValue, q: SearchQuery) -> bool {
    let b = r.at("query"@).at("bool"@);
    let must = b.at("must"@).elements();
    let filter = b.at("filter"@).elements();
    &&& r.at("size"@) == JsonValue::Int(q.limit as i64)
    &&& r.at("from"@) == JsonValue::Int(q.offset as i64)
    &&& is_text_list(r.at("_source"@), seq!["id"@, "item_type"@])
    &&& must is Some
    &&& must->0.len() == 1 + present(q.artist) + present(q.album)
    &&& is_relevance_clause(must->0[0].at("multi_match"@), sanitized(q.q@))
    &&& q.artist matches Some(a) ==> is_field_clause(must->0[1], "artist_name"@, a)
    &&& q.album matches Some(a) ==> is_field_clause(
        must->0[must->0.len() - 1],
        "album_name"@,
        a,
    )
    &&& filter is Some
    &&& filter->0.len() == 1
    &&& filter->0[0].at("term"@).at("item_type"@).str_value() == Some(type_label(q))
}

/// The hit count of a search response, `hits.total.value`, or 0.
pub open spec fn total_of(resp: JsonValue) -> i64 {
    match resp.at("hits"@).at("total"@).at("value"@) {
        JsonValue::Int(n) => n,
        _ => 0,
    }
}

/// Whether a point-get response for an existing document names kind `kind`.
pub open spec fn document_is_kind(found: bool, resp: JsonValue, kind: ItemKind) -> bool {
    found && source_text(resp, "item_type"@) == Some(kind_label(kind))
}

fn text_list(texts: Vec<&str>) -> (r: JsonValue)
    ensures
        is_text_list(r, texts@.map_values(|t: &str| t@)),
{
    let mut out: Vec<JsonValue> = Vec::new();
    let mut i: usize = 0;
    while i < texts.len()
        invariant
            i <= texts@.len(),
            out@.len() == i,
            forall|k: int| 0 <= k < i ==> (#[trigger] out@[k]).str_value() == Some(texts@[k]@),
        decreases texts@.len() - i,
    {
        out.push(JsonValue::text(texts[i]));
        i = i + 1;
    }
    JsonValue::Array(out)
}

fn relevance_clause(text: JsonValue) -> (r: JsonValue)
    ensures
        r.at("query"@) == text,
        is_text_list(r.at("fields"@), boosted_fields()),
        r.at("type"@).str_value() == Some("best_fields"@),
        r.at("fuzziness"@).str_value() == Some("AUTO"@),
        r.at("prefix_length"@) == JsonValue::Int(2),
{
    let fields = text_list(vec!["name^3", "artist_name^2", "album_name"]);
    proof {
        assert(seq!["name^3", "artist_name^2", "album_name"].map_values(|t: &str| t@) =~= boosted_fields());
    }
    let ms = vec![
        member("query", text),
        member("fields", fields),
        member("type", JsonValue::text("best_fields")),
        member("fuzziness", JsonValue::text("AUTO")),
        member("prefix_length", JsonValue::Int(2)),
    ];
    proof {
        reveal_strlit("query");
        reveal_strlit("fields");
        reveal_strlit("type");
        reveal_strlit("fuzziness");
        reveal_strlit("prefix_length");
        assert("query"@.len() == 5 && "fields"@.len() == 6 && "type"@.len() == 4);
        assert("fuzziness"@.len() == 9 && "prefix_length"@.len() == 13);
        lemma_member_found(ms@, 0, "query"@);
        lemma_member_found(ms@, 1, "fields"@);
        lemma_member_found(ms@, 2, "type"@);
        lemma_member_found(ms@, 3, "fuzziness"@);
        lemma_member_found(ms@, 4, "prefix_length"@);
    }
    JsonValue::Object(ms)
}

fn field_clause(field: &str, f: &String) -> (r: JsonValue)
    ensures
        r.at("match"@).at(field@).str_value() == Some(sanitized(f@)),
{
    let clean = sanitize(f.as_str());
    single("match", single(field, JsonValue::Str(clean)))
}

impl SearchClient {
    /// A client for the cluster at `es_url`, searching index `music`.
    pub fn new(es_url: &str) -> (r: SearchClient)
        ensures
            r.url@ == es_url@,
            r.index_name@ == "music"@,
    {
        SearchClient { url: es_url.to_owned(), index_name: String::from_str("music") }
    }

    /// The search body of a request.
    pub fn search_body(&self, q: &SearchQuery) -> (r: JsonValue)
        ensures
            is_search_body(r, *q),
    {
        let mut must: Vec<JsonValue> = Vec::new();
        let text = sanitize(q.q.as_str());
        must.push(single("multi_match", relevance_clause(JsonValue::Str(text))));
        match &q.artist {
            Some(a) => {
                must.push(field_clause("artist_name", a));
            },
            None => {},
        }
        match &q.album {
            Some(a) => {
                must.push(field_clause("album_name", a));
            },
            None => {},
        }
        let label = q.type_label();
        let filter = vec![single("term", single("item_type", JsonValue::Str(label)))];
        let bool_members = vec![
            member("must", JsonValue::Array(must)),
            member("filter", JsonValue::Array(filter)),
        ];
        let source = text_list(vec!["id", "item_type"]);
        proof {
            assert(seq!["id", "item_type"].map_values(|t: &str| t@) =~= seq!["id"@, "item_type"@]);
            reveal_strlit("must");
            reveal_strlit("filter");
            assert("must"@.len() == 4 && "filter"@.len() == 6);
            lemma_member_found(bool_members@, 0, "must"@);
            lemma_member_found(bool_members@, 1, "filter"@);
        }
        let top = vec![
            member("query", single("bool", JsonValue::Object(bool_members))),
            member("size", JsonValue::Int(q.limit as i64)),
            member("from", JsonValue::Int(q.offset as i64)),
            member("_source", source),
        ];
        proof {
            reveal_strlit("query");
            reveal_strlit("size");
            reveal_strlit("from");
            reveal_strlit("_source");
            assert("query"@.len() == 5 && "size"@.len() == 4 && "_source"@.len() == 7);
            assert("from"@.len() == 4 && "size"@[0] != "from"@[0]);
            lemma_member_found(top@, 0, "query"@);
            lemma_member_found(top@, 1, "size"@);
            lemma_member_found(top@, 2, "from"@);
            lemma_member_found(top@, 3, "_source"@);
        }
        JsonValue::Object(top)
    }

    /// The ranked ids of a search response, in rank order, at most `limit`:
    /// each hit's `_source.id`, skipping hits with an empty id or whose
    /// `_source.item_type` is not `label` (documents of an unknown or other
    /// kind are skipped, never fatal).
    pub fn ranked_ids(&self, resp: &JsonValue, label: &str, limit: i32) -> (r: Vec<String>)
        ensures
            texts_view(r@) == ranked_ids_of(*resp, "id"@, Some(label@), limit as int),
            r@.len() <= (if limit < 0 { 0 } else { limit as int }),
    {
        ranked_ids(resp, "id", Some(label), limit)
    }

    /// The total of a search response: the index's hit count for the query,
    /// `hits.total.value`, or 0.
    pub fn total(&self, resp: &JsonValue) -> (r: i64)
        ensures
            r == total_of(*resp),
    {
        match resp.get("hits") {
            Some(h) => match h.get("total") {
                Some(t) => match t.get("value") {
                    Some(v) => match v.as_i64() {
                        Some(n) => n,
                        None => 0,
                    },
                    None => 0,
                },
                None => 0,
            },
            None => 0,
        }
    }

    /// Whether a point-get answer names a document of kind `kind`; `found`
    /// is false when the index answered that no such document exists.
    pub fn document_is(&self, found: bool, resp: &JsonValue, kind: ItemKind) -> (r: bool)
        ensures
            r == document_is_kind(found, *resp, kind),
    {
        if !found {
            return false;
        }
        match crate::index::source_field(resp, "item_type") {
            Some(t) => crate::text::str_eq(t, kind.as_str()),
            None => false,
        }
    }

    /// The document count of a count response, `count`, or 0.
    pub fn document_count(&self, resp: &JsonValue) -> (r: i64)
        ensures
            r == (match resp.at("count"@) {
                JsonValue::Int(n) => n,
                _ => 0,
            }),
    {
        match resp.get("count") {
            Some(v) => match v.as_i64() {
                Some(n) => n,
                None => 0,
            },
            None => 0,
        }
    }

    /// The settings and mappings the index is created with.
    pub fn index_mapping(&self) -> (r: JsonValue)
        ensures
            is_index_mapping(r),
    {
        let edge = vec![
            member("type", JsonValue::text("edge_ngram")),
            member("min_gram", JsonValue::Int(2)),
            member("max_gram", JsonValue::Int(20)),
        ];
        let analyzer = vec![
            member("tokenizer", JsonValue::text("standard")),
            member("filter", text_list(vec!["lowercase", "asciifolding", "edge_ngram_filter"])),
        ];
        let analysis = vec![
            member("analyzer", single("music_analyzer", JsonValue::Object(analyzer))),
            member("filter", single("edge_ngram_filter", JsonValue::Object(edge))),
        ];
        let settings = vec![
            member("number_of_shards", JsonValue::Int(3)),
            member("number_of_replicas", JsonValue::Int(0)),
            member("analysis", JsonValue::Object(analysis)),
        ];
        let properties = vec![
            member("id", single("type", JsonValue::text("keyword"))),
            member("name", analyzed_text()),
            member("artist_name", analyzed_text()),
            member("album_name", analyzed_text()),
            member("item_type", single("type", JsonValue::text("keyword"))),
            member("duration", stored_only("integer")),
            member("date", stored_only("keyword")),
        ];
        proof {
            reveal_strlit("type");
            reveal_strlit("min_gram");
            reveal_strlit("max_gram");
            reveal_strlit("tokenizer");
            reveal_strlit("filter");
            reveal_strlit("analyzer");
            reveal_strlit("number_of_shards");
            reveal_strlit("number_of_replicas");
            reveal_strlit("analysis");
            reveal_strlit("id");
            reveal_strlit("name");
            reveal_strlit("artist_name");
            reveal_strlit("album_name");
            reveal_strlit("item_type");
            assert("type"@.len() == 4 && "min_gram"@.len() == 8 && "max_gram"@.len() == 8);
            assert("min_gram"@[1] != "max_gram"@[1]);
            assert("tokenizer"@.len() == 9 && "filter"@.len() == 6 && "analyzer"@.len() == 8);
            assert("number_of_shards"@.len() == 16 && "number_of_replicas"@.len() == 18);
            assert("analysis"@.len() == 8);
            assert("id"@.len() == 2 && "name"@.len() == 4 && "artist_name"@.len() == 11);
            assert("album_name"@.len() == 10);
            assert(seq!["lowercase", "asciifolding", "edge_ngram_filter"].map_values(|t: &str| t@)
                =~= seq!["lowercase"@, "asciifolding"@, "edge_ngram_filter"@]);
            lemma_member_found(edge@, 0, "type"@);
            lemma_member_found(edge@, 1, "min_gram"@);
            lemma_member_found(edge@, 2, "max_gram"@);
            lemma_member_found(analyzer@, 1, "filter"@);
            lemma_member_found(analysis@, 0, "analyzer"@);
            lemma_member_found(analysis@, 1, "filter"@);
            lemma_member_found(settings@, 2, "analysis"@);
            lemma_member_found(properties@, 1, "name"@);
            lemma_member_found(properties@, 2, "artist_name"@);
            lemma_member_found(properties@, 3, "album_name"@);
        }
        let top = vec![
            member("settings", JsonValue::Object(settings)),
            member("mappings", single("properties", JsonValue::Object(properties))),
        ];
        proof {
            reveal_strlit("settings");
            reveal_strlit("mappings");
            assert("settings"@[0] != "mappings"@[0]);
            lemma_member_found(top@, 0, "settings"@);
            lemma_member_found(top@, 1, "mappings"@);
        }
        JsonValue::Object(top)
    }
}

/// A text field analysed with the edge n-gram analyzer.
pub open spec fn is_analyzed_text(f: JsonValue) -> bool {
    f.at("type"@).str_value() == Some("text"@) && f.at("analyzer"@).str_value() == Some(
        "music_analyzer"@,
    )
}

/// The index schema: text is lowercased, ASCII-folded and cut into edge
/// n-grams of 2 to 20 characters, and name, artist and album are analysed so.
pub open spec fn is_index_mapping(r: JsonValue) -> bool {
    let analysis = r.at("settings"@).at("analysis"@);
    let edge = analysis.at("filter"@).at("edge_ngram_filter"@);
    let props = r.at("mappings"@).at("properties"@);
    &&& edge.at("type"@).str_value() == Some("edge_ngram"@)
    &&& edge.at("min_gram"@) == JsonValue::Int(2)
    &&& edge.at("max_gram"@) == JsonValue::Int(20)
    &&& is_text_list(
        analysis.at("analyzer"@).at("music_analyzer"@).at("filter"@),
        seq!["lowercase"@, "asciifolding"@, "edge_ngram_filter"@],
    )
    &&& is_analyzed_text(props.at("name"@))
    &&& is_analyzed_text(props.at("artist_name"@))
    &&& is_analyzed_text(props.at("album_name"@))
}

fn analyzed_text() -> (r: JsonValue)
    ensures
        is_analyzed_text(r),
{
    let ms = vec![
        member("type", JsonValue::text("text")),
        member("analyzer", JsonValue::text("music_analyzer")),
    ];
    proof {
        reveal_strlit("type");
        reveal_strlit("analyzer");
        assert("type"@.len() == 4 && "analyzer"@.len() == 8);
        lemma_member_found(ms@, 0, "type"@);
        lemma_member_found(ms@, 1, "analyzer"@);
    }
    JsonValue::Object(ms)
}

fn stored_only(kind: &str) -> (r: JsonValue)
    ensures
        r.at("type"@).str_value() == Some(kind@),
{
    let ms = vec![member("type", JsonValue::text(kind)), member("index", JsonValue::Bool(false))];
    proof {
        lemma_member_found(ms@, 0, "type"@);
    }
    JsonValue::Object(ms)
}

} // verus!
