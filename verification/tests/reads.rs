use opendal_adapter::meta::{
    datetime_from_parts, datetime_to_timestamp, format_object_attributes, format_object_meta, format_reader_options,
    format_stat_options, timestamp_to_datetime, EntryMetadata, GetConditions,
};
use opendal_adapter::range::{
    first_read_start, format_read_range, plan_read_with_stat, plan_read_without_stat, GetRange, ReadPlan, ReadStart,
};

fn bounds(plan: &ReadPlan) -> (u64, u64) {
    match plan {
        ReadPlan::NoBody(r) | ReadPlan::Fetch(r) | ReadPlan::KeepStream(r) => (r.start, r.end),
    }
}

#[test]
fn read_range_bounded_inside_object() {
    assert_eq!(format_read_range(Some(&GetRange::Bounded(2, 4)), 10), 2..4);
}

#[test]
fn read_range_bounded_cut_at_end() {
    assert_eq!(format_read_range(Some(&GetRange::Bounded(2, 40)), 10), 2..10);
}

#[test]
fn read_range_bounded_empty_or_past_end() {
    assert_eq!(format_read_range(Some(&GetRange::Bounded(4, 4)), 10), 0..0);
    assert_eq!(format_read_range(Some(&GetRange::Bounded(6, 3)), 10), 0..0);
    assert_eq!(format_read_range(Some(&GetRange::Bounded(10, 12)), 10), 0..0);
}

#[test]
fn read_range_offset() {
    assert_eq!(format_read_range(Some(&GetRange::Offset(3)), 10), 3..10);
    assert_eq!(format_read_range(Some(&GetRange::Offset(10)), 10), 0..0);
}

#[test]
fn read_range_suffix() {
    assert_eq!(format_read_range(Some(&GetRange::Suffix(3)), 10), 7..10);
    assert_eq!(format_read_range(Some(&GetRange::Suffix(10)), 10), 0..10);
    assert_eq!(format_read_range(Some(&GetRange::Suffix(30)), 10), 0..10);
}

#[test]
fn read_range_whole_object() {
    assert_eq!(format_read_range(None, 10), 0..10);
    assert_eq!(format_read_range(None, 0), 0..0);
}

#[test]
fn read_without_stat_rereads_bounded_range_past_end() {
    let plan = plan_read_without_stat(Some(&GetRange::Bounded(2, 40)), 10);
    assert!(matches!(plan, ReadPlan::Fetch(_)));
    assert_eq!(bounds(&plan), (2, 10));
}

#[test]
fn read_without_stat_keeps_stream() {
    let plan = plan_read_without_stat(Some(&GetRange::Bounded(2, 10)), 10);
    assert!(matches!(plan, ReadPlan::KeepStream(_)));
    assert_eq!(bounds(&plan), (2, 10));
    let plan = plan_read_without_stat(Some(&GetRange::Suffix(4)), 10);
    assert!(matches!(plan, ReadPlan::KeepStream(_)));
    assert_eq!(bounds(&plan), (6, 10));
}

#[test]
fn read_without_stat_empty_range_has_no_body() {
    let plan = plan_read_without_stat(Some(&GetRange::Offset(12)), 10);
    assert!(matches!(plan, ReadPlan::NoBody(_)));
    assert_eq!(bounds(&plan), (0, 0));
}

#[test]
fn read_with_stat_head_has_no_body() {
    let plan = plan_read_with_stat(true, Some(&GetRange::Bounded(1, 3)), 10);
    assert!(matches!(plan, ReadPlan::NoBody(_)));
    assert_eq!(bounds(&plan), (0, 0));
}

#[test]
fn read_with_stat_fetches_range() {
    let plan = plan_read_with_stat(false, Some(&GetRange::Offset(4)), 10);
    assert!(matches!(plan, ReadPlan::Fetch(_)));
    assert_eq!(bounds(&plan), (4, 10));
}

#[test]
fn both_read_paths_agree_on_bounds() {
    let ranges = [
        None,
        Some(GetRange::Bounded(0, 3)),
        Some(GetRange::Bounded(5, 50)),
        Some(GetRange::Bounded(11, 50)),
        Some(GetRange::Offset(9)),
        Some(GetRange::Suffix(0)),
        Some(GetRange::Suffix(20)),
    ];
    for range in ranges.iter() {
        let a = plan_read_without_stat(range.as_ref(), 10);
        let b = plan_read_with_stat(false, range.as_ref(), 10);
        assert_eq!(bounds(&a), bounds(&b));
        assert_eq!(matches!(a, ReadPlan::NoBody(_)), matches!(b, ReadPlan::NoBody(_)));
        assert!(bounds(&a).0 <= bounds(&a).1 && bounds(&a).1 <= 10);
    }
}

fn ts(secs: i64, nanos: i32) -> opendal::raw::Timestamp {
    opendal::raw::Timestamp::new(secs, nanos).unwrap()
}

#[test]
fn timestamp_parts_convert_when_chrono_has_a_date() {
    assert_eq!(datetime_from_parts(1_700_000_000, 250), Some((1_700_000_000, 250)));
    assert_eq!(datetime_from_parts(0, 0), Some((0, 0)));
}

#[test]
fn timestamp_parts_before_epoch_with_fraction_have_no_date() {
    assert_eq!(datetime_from_parts(-2, -500), None);
    assert_eq!(datetime_from_parts(-2, 0), Some((-2, 0)));
}

#[test]
fn timestamp_converts_to_date() {
    assert_eq!(timestamp_to_datetime(ts(1_700_000_000, 250)), Some((1_700_000_000, 250)));
    // jiff stores 5 s - 1 ns as 4 s + 999,999,999 ns.
    assert_eq!(timestamp_to_datetime(ts(5, -1)), Some((4, 999_999_999)));
    // Before the epoch with a fraction, jiff's nanoseconds are negative.
    assert_eq!(timestamp_to_datetime(ts(-2, -500)), None);
}

#[test]
fn date_round_trips_through_timestamp() {
    for (secs, nanos) in [(0i64, 0u32), (1_700_000_000, 123_456_789), (59, 999_999_999)] {
        let t = datetime_to_timestamp(secs, nanos).unwrap();
        assert_eq!(timestamp_to_datetime(t), Some((secs, nanos)));
    }
}

#[test]
fn datetime_to_timestamp_bounds() {
    assert!(datetime_to_timestamp(0, 0).is_some());
    assert!(datetime_to_timestamp(253_402_207_200, 999_999_999).is_some());
    assert!(datetime_to_timestamp(253_402_207_201, 0).is_none());
    assert!(datetime_to_timestamp(-377_705_023_201, 0).is_some());
    assert!(datetime_to_timestamp(-377_705_023_202, 0).is_none());
    assert!(datetime_to_timestamp(59, 1_500_000_000).is_none());
}

fn meta(last_modified: Option<opendal::raw::Timestamp>) -> EntryMetadata {
    EntryMetadata {
        is_dir: false,
        last_modified,
        content_length: 42,
        etag: Some("\"etag-1\"".to_string()),
        version: None,
        user_metadata: Some(vec![("owner".to_string(), "lance".to_string())]),
    }
}

#[test]
fn object_meta_from_listing() {
    let m = meta(Some(ts(1_000, 7)));
    let entry = format_object_meta("data/run#1/part.lance", &m);
    assert_eq!(entry.location, "data/run%231/part.lance");
    assert_eq!(entry.last_modified, (1_000, 7));
    assert_eq!(entry.size, 42);
    assert_eq!(entry.e_tag, Some("\"etag-1\"".to_string()));
    assert_eq!(entry.version, None);
}

#[test]
fn object_meta_without_modification_time_uses_epoch() {
    let entry = format_object_meta("a/b", &meta(None));
    assert_eq!(entry.location, "a/b");
    assert_eq!(entry.last_modified, (0, 0));
    let entry = format_object_meta("a/b", &meta(Some(ts(-5, -1))));
    assert_eq!(entry.last_modified, (0, 0));
}

#[test]
fn object_attributes_are_user_metadata() {
    let attrs = format_object_attributes(&meta(None));
    assert_eq!(attrs, vec![("owner".to_string(), "lance".to_string())]);
    let mut m = meta(None);
    m.user_metadata = None;
    assert!(format_object_attributes(&m).is_empty());
}

#[test]
fn reader_and_stat_conditions_agree() {
    let options = GetConditions {
        version: Some("v7".to_string()),
        if_match: Some("\"a\"".to_string()),
        if_none_match: None,
        if_modified_since: Some((1_000, 0)),
        if_unmodified_since: Some((1_000, 1_000_000_500)),
    };
    let read = format_reader_options(&options, Some(99));
    let stat = format_stat_options(&options);
    assert_eq!(read.version, Some("v7".to_string()));
    assert_eq!(read.if_match, Some("\"a\"".to_string()));
    assert_eq!(read.if_none_match, None);
    assert_eq!(read.if_modified_since, Some(ts(1_000, 0)));
    assert!(read.if_unmodified_since.is_none());
    assert_eq!(read.content_length_hint, Some(99));
    assert_eq!(stat.version, read.version);
    assert_eq!(stat.if_match, read.if_match);
    assert_eq!(stat.if_modified_since, Some(ts(1_000, 0)));
    assert!(stat.if_unmodified_since.is_none());
    assert_eq!(stat.content_length_hint, None);
}

#[test]
fn head_requests_look_metadata_up_first() {
    assert_eq!(first_read_start(true), ReadStart::WithStat);
    assert_eq!(first_read_start(false), ReadStart::WithoutStat);
}
