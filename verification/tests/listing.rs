use opendal_adapter::listing::{
    delimited_entry_action, list_entry, offset_entry_needs_stat, DelimitedListing, EntryAction,
};
use opendal_adapter::meta::EntryMetadata;
use opendal_adapter::path::{listing_root, raw_location};

fn ts(secs: i64) -> opendal::raw::Timestamp {
    opendal::raw::Timestamp::new(secs, 0).unwrap()
}

fn file(last_modified: Option<opendal::raw::Timestamp>) -> EntryMetadata {
    EntryMetadata {
        is_dir: false,
        last_modified,
        content_length: 4,
        etag: None,
        version: None,
        user_metadata: None,
    }
}

fn dir() -> EntryMetadata {
    EntryMetadata { is_dir: true, last_modified: None, content_length: 0, etag: None, version: None, user_metadata: None }
}

#[test]
fn entry_actions() {
    assert_eq!(delimited_entry_action(&dir()), EntryAction::CommonPrefix);
    assert_eq!(delimited_entry_action(&file(Some(ts(1)))), EntryAction::Object);
    assert_eq!(delimited_entry_action(&file(None)), EntryAction::StatFirst);
    assert!(!offset_entry_needs_stat(&dir()));
    assert!(!offset_entry_needs_stat(&file(Some(ts(1)))));
    assert!(offset_entry_needs_stat(&file(None)));
}

// A dataset under a base path holds a manifest and a data file; listing the
// base reports both at the locations they were written to.
#[test]
fn listed_locations_keep_request_spelling_raw_reserved_character() {
    let base = "tables/run~1/t.lance";
    let direct = "tables/run~1/t.lance/manifest.lance";
    let nested = "tables/run~1/t.lance/data/part.lance";
    assert_eq!(listing_root(Some(base)), "tables/run~1/t.lance/");
    for location in [direct, nested] {
        let key = raw_location(location);
        let entry = list_entry(&key, &file(Some(ts(10))), Some(base)).ok().unwrap();
        assert_eq!(entry.location, location);
        assert_eq!(entry.size, 4);
        assert_eq!(entry.last_modified, (10, 0));
    }
}

#[test]
fn listed_locations_keep_request_spelling_literal_percent_escape() {
    // Path::from_url_path("tables/run%25231/t.lance") has the text below.
    let base = "tables/run%231/t.lance";
    let direct = "tables/run%231/t.lance/manifest.lance";
    let key = raw_location(direct);
    assert_eq!(key, "tables/run#1/t.lance/manifest.lance");
    let entry = list_entry(&key, &file(Some(ts(10))), Some(base)).ok().unwrap();
    assert_eq!(entry.location, direct);
}

#[test]
fn delimited_listing_sorts_entries() {
    let base = "tables/run~1/t.lance";
    let mut listing = DelimitedListing::new();
    listing.add_directory("tables/run~1/t.lance/data/", Some(base)).unwrap();
    listing.add_object("tables/run~1/t.lance/manifest.lance", &file(Some(ts(3))), Some(base)).unwrap();
    assert_eq!(listing.common_prefixes, vec!["tables/run~1/t.lance/data".to_string()]);
    assert_eq!(listing.objects.len(), 1);
    assert_eq!(listing.objects[0].location, "tables/run~1/t.lance/manifest.lance");
}

#[test]
fn delimited_listing_rejects_invalid_location() {
    let mut listing = DelimitedListing::new();
    assert!(listing.add_directory("a/../b", Some("z")).is_err());
    assert!(listing.common_prefixes.is_empty());
    assert!(listing.objects.is_empty());
}
