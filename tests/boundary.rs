use vleer_search::api::{check_paging, is_valid_omid, PagingError, ValidationError};
use vleer_search::models::ItemKind;
use vleer_search::query::{default_limit, SearchQuery};
use vleer_search::telemetry::{calculate_bucket_interval, rate_limit_period, validate_semver, Os};

#[test]
fn omid_shape() {
    assert!(is_valid_omid("0000000000000000"));
    assert!(is_valid_omid("abcdefghij012345"));
    assert!(!is_valid_omid("ABCDEFGHIJ012345"));
    assert!(!is_valid_omid("abc"));
    assert!(!is_valid_omid("abcdefghij0123456"));
}

#[test]
fn paging_checks() {
    assert_eq!(check_paging(0, 0), Err(PagingError::LimitOutOfRange));
    assert_eq!(check_paging(101, -1), Err(PagingError::LimitOutOfRange));
    assert_eq!(check_paging(20, -1), Err(PagingError::NegativeOffset));
    assert_eq!(check_paging(100, 0), Ok(()));
    assert_eq!(PagingError::NegativeOffset.message(), "Offset must be non-negative");
    assert_eq!(default_limit(), 20);
}

#[test]
fn validation_messages() {
    let e = ValidationError::JsonDataError("eof".to_string());
    assert_eq!(e.message(), "Invalid JSON: eof");
    assert_eq!(e.status(), 400);
    assert_eq!(ValidationError::ValidationError("bad".to_string()).message(), "Validation Failed: bad");
}

#[test]
fn kinds_and_labels() {
    assert_eq!(ItemKind::parse("album"), Some(ItemKind::Album));
    assert_eq!(ItemKind::parse("Album"), None);
    assert_eq!(ItemKind::Artist.as_str(), "artist");
    let q = SearchQuery {
        q: "x".to_string(),
        item_type: None,
        artist: None,
        album: None,
        isrc: None,
        upc: None,
        limit: 20,
        offset: 0,
    };
    assert_eq!(q.kind(), Some(ItemKind::Song));
    assert_eq!(q.type_label(), "song");
    let q2 = SearchQuery { item_type: Some("playlist".to_string()), ..q };
    assert_eq!(q2.kind(), None);
}

#[test]
fn os_names() {
    assert_eq!(Os::Linux.as_str(), "Linux");
    assert_eq!(Os::MacOS.as_str(), "macOS");
    assert_eq!(Os::Windows.as_str(), "Windows");
}

#[test]
fn semver_versions() {
    assert!(validate_semver("1.2.3").is_ok());
    assert!(validate_semver("10.0.42").is_ok());
    assert!(validate_semver("1.2").is_err());
    assert!(validate_semver("v1.2.3").is_err());
    assert!(validate_semver("1.2.3-beta").is_err());
}

#[test]
fn bucket_intervals() {
    assert_eq!(calculate_bucket_interval(0, 0), 10);
    assert_eq!(calculate_bucket_interval(100, 0), 10);
    assert_eq!(calculate_bucket_interval(0, 150 * 25), 30);
    assert_eq!(calculate_bucket_interval(0, 86_400), 600);
    assert_eq!(calculate_bucket_interval(0, 30 * 86_400), 10800);
    assert_eq!(calculate_bucket_interval(0, 365 * 86_400), 86400);
    assert_eq!(calculate_bucket_interval(0, 150 * 500_000), 604800);
    assert_eq!(calculate_bucket_interval(i64::MIN, i64::MAX), 604800);
}

#[test]
fn rate_limit_periods() {
    assert_eq!(rate_limit_period(20, 1000), 50);
    assert_eq!(rate_limit_period(1, 2000), 2000);
    assert_eq!(rate_limit_period(0, 700), 700);
}
