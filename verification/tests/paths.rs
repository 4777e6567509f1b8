use opendal_adapter::error::{ErrorSource, StoreError};
use opendal_adapter::path::{
    is_after_offset, listing_root, normalize_location, path_prefix_matches, raw_location,
};

#[test]
fn raw_location_decodes_escapes() {
    assert_eq!(raw_location("tables/run%231/t.lance"), "tables/run#1/t.lance");
    assert_eq!(raw_location("a%20b/c"), "a b/c");
    assert_eq!(raw_location("plain/path"), "plain/path");
}

#[test]
fn listing_root_of_prefix() {
    assert_eq!(listing_root(None), "");
    assert_eq!(listing_root(Some("tables/run%231")), "tables/run#1/");
    assert_eq!(listing_root(Some("a")), "a/");
}

#[test]
fn prefix_matching_is_by_segment() {
    assert!(path_prefix_matches("a/b", "a"));
    assert!(path_prefix_matches("a", "a"));
    assert!(path_prefix_matches("a/b", ""));
    assert!(!path_prefix_matches("ab", "a"));
    assert!(!path_prefix_matches("a", "a/b"));
    assert!(!path_prefix_matches("b/a", "a"));
}

#[test]
fn normalize_keeps_matching_spelling() {
    let r = normalize_location("tables/run%231/t.lance/manifest.lance", Some("tables/run%231/t.lance"));
    assert_eq!(r.ok(), Some("tables/run%231/t.lance/manifest.lance".to_string()));
    let r = normalize_location("x%7Ey", None);
    assert_eq!(r.ok(), Some("x%7Ey".to_string()));
}

#[test]
fn normalize_decodes_mismatched_spelling() {
    let r = normalize_location("tables/run%7E1/t.lance/manifest.lance", Some("tables/run~1/t.lance"));
    assert_eq!(r.ok(), Some("tables/run~1/t.lance/manifest.lance".to_string()));
}

#[test]
fn normalize_reports_invalid_path() {
    match normalize_location("a/%2E%2E/b", Some("z")) {
        Err(StoreError::Generic { store, source: ErrorSource::Path(_) }) => assert_eq!(store, "OpendalStore"),
        _ => panic!("expected an invalid path"),
    }
}

#[test]
fn offset_filter_is_strict_order() {
    assert!(is_after_offset("b", "a"));
    assert!(!is_after_offset("a", "b"));
    assert!(!is_after_offset("a", "a"));
    assert!(is_after_offset("ab", "a"));
    assert!(!is_after_offset("a", "ab"));
    assert!(is_after_offset("t/manifest.lance", "t/data/part.lance"));
    assert!(!is_after_offset("", ""));
}
