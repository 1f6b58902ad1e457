use vleer_search::text::{contains, contains_ignore_case, equals_ignore_case, render_int, sanitize, str_eq};

#[test]
fn sanitize_replaces_special_characters_with_spaces() {
    assert_eq!(sanitize("it's \"big\" @home! 2^3 a\\b"), "it s  big   home  2 3 a b");
}

#[test]
fn sanitize_keeps_plain_text() {
    assert_eq!(sanitize("Yesterday"), "Yesterday");
    assert_eq!(sanitize(""), "");
}

#[test]
fn contains_is_case_sensitive_substring() {
    assert!(contains("The Beatles", "Beat"));
    assert!(!contains("The Beatles", "beat"));
    assert!(contains("abc", ""));
    assert!(!contains("ab", "abc"));
}

#[test]
fn artist_filter_matches_inner_substring_ignoring_case() {
    assert!(contains_ignore_case("The Beatles", "beat"));
    assert!(contains_ignore_case("The Beatles", "BEATLES"));
    assert!(!contains_ignore_case("The Beatles", "stones"));
}

#[test]
fn equality_ignoring_case() {
    assert!(equals_ignore_case("USRC17607839", "usrc17607839"));
    assert!(!equals_ignore_case("USRC17607839", "USRC17607830"));
}

#[test]
fn str_eq_compares_characters() {
    assert!(str_eq("song", "song"));
    assert!(!str_eq("song", "songs"));
}

#[test]
fn render_int_writes_decimal() {
    assert_eq!(render_int(0), "0");
    assert_eq!(render_int(20), "20");
    assert_eq!(render_int(-305), "-305");
    assert_eq!(render_int(i64::MAX), "9223372036854775807");
    assert_eq!(render_int(i64::MIN), "-9223372036854775808");
}
