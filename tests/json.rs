use vleer_search::json::{member, single, JsonValue};

fn hit(field: &str, id: &str) -> JsonValue {
    single("_source", single(field, JsonValue::Str(id.to_string())))
}

#[test]
fn get_finds_first_member() {
    let v = JsonValue::Object(vec![
        member("a", JsonValue::Int(1)),
        member("b", JsonValue::Int(2)),
        member("a", JsonValue::Int(3)),
    ]);
    assert_eq!(v.get("a").and_then(|x| x.as_i64()), Some(1));
    assert_eq!(v.get("b").and_then(|x| x.as_i64()), Some(2));
    assert!(v.get("c").is_none());
    assert!(JsonValue::Null.get("a").is_none());
}

#[test]
fn accessors_read_only_their_variant() {
    assert_eq!(JsonValue::Str("x".to_string()).as_str(), Some("x"));
    assert_eq!(JsonValue::Int(5).as_str(), None);
    assert_eq!(JsonValue::OtherNumber("1.5".to_string()).as_i64(), None);
    assert_eq!(JsonValue::Array(vec![JsonValue::Null]).as_array().map(|v| v.len()), Some(1));
    assert!(hit("doc_id", "x").as_array().is_none());
}
