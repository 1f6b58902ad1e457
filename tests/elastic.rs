use vleer_search::json::{member, single, JsonValue};
use vleer_search::models::ItemKind;
use vleer_search::query::SearchQuery;
use vleer_search::search::SearchClient;

fn query(q: &str) -> SearchQuery {
    SearchQuery {
        q: q.to_string(),
        item_type: None,
        artist: None,
        album: None,
        isrc: None,
        upc: None,
        limit: 20,
        offset: 0,
    }
}

fn at<'a>(v: &'a JsonValue, path: &[&str]) -> &'a JsonValue {
    let mut cur = v;
    for k in path {
        cur = cur.get(k).expect("member present");
    }
    cur
}

fn hit(id: &str, kind: &str) -> JsonValue {
    single(
        "_source",
        JsonValue::Object(vec![
            member("id", JsonValue::Str(id.to_string())),
            member("item_type", JsonValue::Str(kind.to_string())),
        ]),
    )
}

#[test]
fn search_body_carries_query_kind_and_page() {
    let c = SearchClient::new("http://es:9200");
    let mut q = query("Let @it be");
    q.artist = Some("beat".to_string());
    q.limit = 7;
    q.offset = 14;
    let body = c.search_body(&q);
    assert_eq!(at(&body, &["size"]).as_i64(), Some(7));
    assert_eq!(at(&body, &["from"]).as_i64(), Some(14));
    let must = at(&body, &["query", "bool", "must"]).as_array().unwrap();
    assert_eq!(must.len(), 2);
    assert_eq!(at(&must[0], &["multi_match", "query"]).as_str(), Some("Let  it be"));
    assert_eq!(at(&must[0], &["multi_match", "prefix_length"]).as_i64(), Some(2));
    let fields = at(&must[0], &["multi_match", "fields"]).as_array().unwrap();
    let names: Vec<&str> = fields.iter().map(|f| f.as_str().unwrap()).collect();
    assert_eq!(names, vec!["name^3", "artist_name^2", "album_name"]);
    assert_eq!(at(&must[1], &["match", "artist_name"]).as_str(), Some("beat"));
    let filter = at(&body, &["query", "bool", "filter"]).as_array().unwrap();
    assert_eq!(at(&filter[0], &["term", "item_type"]).as_str(), Some("song"));
}

#[test]
fn ranked_ids_skip_other_kinds_and_empty_ids() {
    let c = SearchClient::new("http://es:9200");
    let resp = single(
        "hits",
        single(
            "hits",
            JsonValue::Array(vec![hit("s1", "song"), hit("a1", "artist"), hit("", "song"), hit("s2", "song"), hit("x", "playlist")]),
        ),
    );
    assert_eq!(c.ranked_ids(&resp, "song", 20), vec!["s1".to_string(), "s2".to_string()]);
    assert_eq!(c.ranked_ids(&resp, "song", 1), vec!["s1".to_string()]);
}

#[test]
fn total_reads_hit_count() {
    let c = SearchClient::new("http://es:9200");
    let resp = single("hits", single("total", single("value", JsonValue::Int(1234))));
    assert_eq!(c.total(&resp), 1234);
    assert_eq!(c.total(&JsonValue::Null), 0);
    assert_eq!(c.document_count(&single("count", JsonValue::Int(9))), 9);
}

#[test]
fn point_get_checks_found_and_kind() {
    let c = SearchClient::new("http://es:9200");
    let doc = single("_source", single("item_type", JsonValue::Str("artist".to_string())));
    assert!(!c.document_is(false, &doc, ItemKind::Artist));
    assert!(!c.document_is(true, &doc, ItemKind::Song));
    assert!(c.document_is(true, &doc, ItemKind::Artist));
}

#[test]
fn mapping_uses_edge_ngrams_of_two_to_twenty() {
    let c = SearchClient::new("http://es:9200");
    let m = c.index_mapping();
    let edge = at(&m, &["settings", "analysis", "filter", "edge_ngram_filter"]);
    assert_eq!(at(edge, &["min_gram"]).as_i64(), Some(2));
    assert_eq!(at(edge, &["max_gram"]).as_i64(), Some(20));
    assert_eq!(at(&m, &["mappings", "properties", "name", "analyzer"]).as_str(), Some("music_analyzer"));
}
