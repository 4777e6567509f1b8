use opendal::ErrorKind as DalKind;
use opendal_adapter::error::{
    format_object_store_error, format_without_stat_error, report_error_of_kind, retries_with_stat,
    ErrorKind, ErrorSource, StoreError,
};

fn dal(kind: DalKind) -> opendal::Error {
    opendal::Error::new(kind, "boom")
}

#[test]
fn not_found_keeps_path() {
    match format_object_store_error(dal(DalKind::NotFound), "a/b.lance") {
        StoreError::NotFound { path, source } => {
            assert_eq!(path, "a/b.lance");
            assert_eq!(source.kind(), DalKind::NotFound);
        }
        _ => panic!("expected NotFound"),
    }
}

#[test]
fn unsupported_is_not_supported() {
    let e = format_object_store_error(dal(DalKind::Unsupported), "a");
    assert!(matches!(e, StoreError::NotSupported { .. }));
    assert!(retries_with_stat(&e));
}

#[test]
fn already_exists_and_precondition_keep_path() {
    match format_object_store_error(dal(DalKind::AlreadyExists), "x") {
        StoreError::AlreadyExists { path, .. } => assert_eq!(path, "x"),
        _ => panic!("expected AlreadyExists"),
    }
    match format_object_store_error(dal(DalKind::ConditionNotMatch), "y") {
        StoreError::Precondition { path, .. } => assert_eq!(path, "y"),
        _ => panic!("expected Precondition"),
    }
}

#[test]
fn other_kinds_are_generic_named_after_kind() {
    let cases = [
        (DalKind::PermissionDenied, "PermissionDenied"),
        (DalKind::RateLimited, "RateLimited"),
        (DalKind::RangeNotSatisfied, "RangeNotSatisfied"),
        (DalKind::Unexpected, "Unexpected"),
        (DalKind::Conflict, "Conflict"),
        (DalKind::IsADirectory, "IsADirectory"),
    ];
    for (kind, name) in cases {
        match format_object_store_error(dal(kind), "p") {
            StoreError::Generic { store, source: ErrorSource::Opendal(source) } => {
                assert_eq!(store, name);
                assert_eq!(source.kind(), kind);
            }
            _ => panic!("expected Generic"),
        }
    }
}

#[test]
fn without_stat_unsupported_and_range_fall_back() {
    for kind in [DalKind::Unsupported, DalKind::RangeNotSatisfied] {
        let e = format_without_stat_error(dal(kind), "p");
        assert!(matches!(e, StoreError::NotSupported { .. }));
        assert!(retries_with_stat(&e));
    }
}

#[test]
fn without_stat_other_errors_do_not_fall_back() {
    let e = format_without_stat_error(dal(DalKind::NotFound), "p/q");
    match &e {
        StoreError::NotFound { path, .. } => assert_eq!(path, "p/q"),
        _ => panic!("expected NotFound"),
    }
    assert!(!retries_with_stat(&e));
    let e = format_without_stat_error(dal(DalKind::PermissionDenied), "p");
    assert!(matches!(e, StoreError::Generic { .. }));
    assert!(!retries_with_stat(&e));
}

#[test]
fn report_by_given_kind() {
    match report_error_of_kind(ErrorKind::ConfigInvalid, dal(DalKind::Unexpected), "p") {
        StoreError::Generic { store, .. } => assert_eq!(store, "ConfigInvalid"),
        _ => panic!("expected Generic"),
    }
}
