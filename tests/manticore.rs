use vleer_search::json::{member, single, JsonValue};
use vleer_search::manticore::SearchClient;
use vleer_search::models::ItemKind;
use vleer_search::query::SearchQuery;

fn query(q: &str) -> SearchQuery {
    SearchQuery {
        q: q.to_string(),
        item_type: None,
        artist: None,
        album: None,
        isrc: None,
        upc: None,
        limit: 20,
        offset: 0,
    }
}

fn hits(sources: Vec<JsonValue>) -> JsonValue {
    let list: Vec<JsonValue> = sources.into_iter().map(|s| single("_source", s)).collect();
    single("hits", single("hits", JsonValue::Array(list)))
}

fn doc(id: &str) -> JsonValue {
    single("doc_id", JsonValue::Str(id.to_string()))
}

#[test]
fn new_uses_music_table() {
    let c = SearchClient::new("http://localhost:9308");
    assert_eq!(c.url, "http://localhost:9308");
    assert_eq!(c.index_name, "music");
}

#[test]
fn search_statement_defaults_to_songs_and_pages() {
    let c = SearchClient::new("http://x");
    let mut q = query("Yes'terday");
    q.limit = 10;
    q.offset = 30;
    assert_eq!(
        c.search_statement(&q),
        "SELECT doc_id FROM music WHERE MATCH('Yes terday') AND item_type='song' LIMIT 30, 10 OPTION field_weights=(name=3, artist_name=2, album_name=1)"
    );
}

#[test]
fn filters_become_field_clauses() {
    let c = SearchClient::new("http://x");
    let mut q = query("help");
    q.item_type = Some("album".to_string());
    q.artist = Some("Beat!les".to_string());
    q.album = Some("Help".to_string());
    assert_eq!(
        c.count_statement(&q),
        "SELECT COUNT(*) as cnt FROM music WHERE MATCH('help @artist_name Beat les @album_name Help') AND item_type='album'"
    );
}

#[test]
fn count_statement_ignores_paging() {
    let c = SearchClient::new("http://x");
    let a = query("love");
    let mut b = query("love");
    b.limit = 5;
    b.offset = 95;
    assert_eq!(c.count_statement(&a), c.count_statement(&b));
    assert_ne!(c.search_statement(&a), c.search_statement(&b));
}

#[test]
fn other_statements() {
    let c = SearchClient::new("http://x");
    assert_eq!(c.count_all_statement(), "SELECT COUNT(*) as cnt FROM music");
    assert_eq!(
        c.point_get_statement("0000000000000000"),
        "SELECT item_type FROM music WHERE doc_id='0000000000000000'"
    );
    assert!(c.create_table_statement().starts_with("CREATE TABLE IF NOT EXISTS music (doc_id string"));
}

#[test]
fn ranked_ids_keep_order_skip_missing_and_stop_at_limit() {
    let c = SearchClient::new("http://x");
    let resp = hits(vec![doc("b"), single("other", JsonValue::Int(1)), doc("a"), doc("c")]);
    assert_eq!(c.ranked_ids(&resp, 20), vec!["b".to_string(), "a".to_string(), "c".to_string()]);
    assert_eq!(c.ranked_ids(&resp, 2), vec!["b".to_string(), "a".to_string()]);
    assert!(c.ranked_ids(&JsonValue::Null, 20).is_empty());
}

#[test]
fn total_reads_first_count() {
    let c = SearchClient::new("http://x");
    let resp = hits(vec![single("cnt", JsonValue::Int(42))]);
    assert_eq!(c.total(&resp), 42);
    assert_eq!(c.total(&hits(vec![])), 0);
    assert_eq!(c.total(&JsonValue::Object(vec![member("error", JsonValue::Null)])), 0);
}

#[test]
fn point_get_absent_when_missing_or_other_kind() {
    let c = SearchClient::new("http://x");
    assert_eq!(
        c.point_get_statement("0000000000000000"),
        "SELECT item_type FROM music WHERE doc_id='0000000000000000'"
    );
    let none = hits(vec![]);
    let artist = hits(vec![single("item_type", JsonValue::Str("artist".to_string()))]);
    let song = hits(vec![single("item_type", JsonValue::Str("song".to_string()))]);
    assert!(!c.document_is(&none, ItemKind::Song));
    assert!(!c.document_is(&artist, ItemKind::Song));
    assert!(c.document_is(&artist, ItemKind::Artist));
    assert!(c.document_is(&song, ItemKind::Song));
}
