use opendal::ErrorKind as DalKind;
use opendal_adapter::error::StoreError;
use opendal_adapter::store::display_label;
use opendal_adapter::write::{
    copy_error, copy_if_not_exists, multipart_write_settings, plan_put, put_error, AttributeKey, CopyMode,
    PutMode, WriteCondition, DEFAULT_CONCURRENT,
};

fn dal(kind: DalKind) -> opendal::Error {
    opendal::Error::new(kind, "boom")
}

#[test]
fn put_conditions_by_mode() {
    assert!(matches!(plan_put(&PutMode::Overwrite), Ok(WriteCondition::Unconditional)));
    assert!(matches!(plan_put(&PutMode::Create), Ok(WriteCondition::IfNotExists)));
    let update = PutMode::Update { e_tag: Some("\"e1\"".to_string()), version: None };
    match plan_put(&update) {
        Ok(WriteCondition::IfMatch(tag)) => assert_eq!(tag, "\"e1\""),
        _ => panic!("expected IfMatch"),
    }
}

#[test]
fn update_without_etag_is_not_supported() {
    let update = PutMode::Update { e_tag: None, version: Some("v1".to_string()) };
    match plan_put(&update) {
        Err(StoreError::NotSupported { source }) => {
            assert_eq!(source.kind(), DalKind::Unsupported);
            assert!(source.to_string().contains("etag is required for conditional put"));
        }
        _ => panic!("expected NotSupported"),
    }
}

#[test]
fn failed_create_means_already_exists() {
    match put_error(dal(DalKind::ConditionNotMatch), "t/a", &PutMode::Create) {
        StoreError::AlreadyExists { path, .. } => assert_eq!(path, "t/a"),
        _ => panic!("expected AlreadyExists"),
    }
    match put_error(dal(DalKind::ConditionNotMatch), "t/a", &PutMode::Overwrite) {
        StoreError::Precondition { path, .. } => assert_eq!(path, "t/a"),
        _ => panic!("expected Precondition"),
    }
    assert!(matches!(put_error(dal(DalKind::NotFound), "t/a", &PutMode::Create), StoreError::NotFound { .. }));
}

#[test]
fn copy_mode_decides_if_not_exists() {
    assert!(copy_if_not_exists(CopyMode::Create));
    assert!(!copy_if_not_exists(CopyMode::Overwrite));
}

#[test]
fn copy_onto_existing_reports_destination() {
    match copy_error(dal(DalKind::AlreadyExists), "from/x", "to/y", true) {
        StoreError::AlreadyExists { path, .. } => assert_eq!(path, "to/y"),
        _ => panic!("expected AlreadyExists"),
    }
    match copy_error(dal(DalKind::AlreadyExists), "from/x", "to/y", false) {
        StoreError::AlreadyExists { path, .. } => assert_eq!(path, "from/x"),
        _ => panic!("expected AlreadyExists"),
    }
    match copy_error(dal(DalKind::NotFound), "from/x", "to/y", true) {
        StoreError::NotFound { path, .. } => assert_eq!(path, "from/x"),
        _ => panic!("expected NotFound"),
    }
}

#[test]
fn multipart_settings_from_attributes() {
    let attrs = vec![
        (AttributeKey::CacheControl, "no-cache".to_string()),
        (AttributeKey::ContentLanguage, "en".to_string()),
        (AttributeKey::ContentType, "application/octet-stream".to_string()),
        (AttributeKey::Metadata("owner".to_string()), "lance".to_string()),
        (AttributeKey::StorageClass, "COLD".to_string()),
        (AttributeKey::ContentEncoding, "gzip".to_string()),
        (AttributeKey::ContentDisposition, "inline".to_string()),
    ];
    let w = multipart_write_settings(&attrs);
    assert_eq!(w.concurrent, DEFAULT_CONCURRENT);
    assert_eq!(w.concurrent, 8);
    assert_eq!(w.cache_control.as_deref(), Some("no-cache"));
    assert_eq!(w.content_type.as_deref(), Some("application/octet-stream"));
    assert_eq!(w.content_encoding.as_deref(), Some("gzip"));
    assert_eq!(w.content_disposition.as_deref(), Some("inline"));
    assert_eq!(w.user_metadata, Some(vec![("owner".to_string(), "lance".to_string())]));
}

#[test]
fn multipart_settings_without_attributes() {
    let w = multipart_write_settings(&Vec::new());
    assert_eq!(w.concurrent, 8);
    assert!(w.cache_control.is_none());
    assert!(w.content_type.is_none());
    assert!(w.user_metadata.is_none());
    let w = multipart_write_settings(&vec![(AttributeKey::ContentLanguage, "en".to_string())]);
    assert!(w.user_metadata.is_none());
}

#[test]
fn display_label_names_backend() {
    assert_eq!(display_label("memory", "bucket-1", "/data/"), "Opendal(memory, bucket=bucket-1, root=/data/)");
}
