//! Writes and copies: the conditions a write is sent with, the options of
//! a multipart upload, and how a failed write or copy is reported.

use vstd::prelude::*;

use crate::error::{error_kind, kind_of, report_error_of_kind, reported_as, ErrorKind, StoreError};
use crate::meta::{opt_string_view, pairs_view};

verus! {

/// How many parts of a multipart upload OpenDAL sends at once.
pub const DEFAULT_CONCURRENT: usize = 8;

/// How a single write treats an object already at its location, as
/// `object_store::PutMode` says it.
pub enum PutMode {
    /// Replace it.
    Overwrite,
    /// Fail if there is one.
    Create,
    /// Replace it only if it is this version.
    Update { e_tag: Option<String>, version: Option<String> },
}

/// The condition OpenDAL checks before it writes.
#[derive(Debug)]
pub enum WriteCondition {
    /// None.
    Unconditional,
    /// No object is at the location.
    IfNotExists,
    /// The object's entity tag is this one.
    IfMatch(String),
}

/// Calls `opendal::Error::new` with the category `Unsupported`, which its
/// source stores as the error's kind. The message is not stated.
#[verifier::external_body]
pub(crate) fn unsupported_error(message: &str) -> (e: opendal::Error)
    ensures
        kind_of(e) == ErrorKind::Unsupported,
{
    opendal::Error::new(opendal::ErrorKind::Unsupported, message)
}

/// The condition a write in `mode` is sent with. An update needs the
/// entity tag of the version it replaces; without one the write is not
/// supported.
pub fn plan_put(mode: &PutMode) -> (r: Result<WriteCondition, StoreError>)
    ensures
        mode is Overwrite ==> r matches Ok(WriteCondition::Unconditional),
        mode is Create ==> r matches Ok(WriteCondition::IfNotExists),
        mode matches PutMode::Update { e_tag: Some(t), .. } ==> r matches Ok(WriteCondition::IfMatch(s)) && s@
            == t@,
        mode matches PutMode::Update { e_tag: None, .. } ==> r matches Err(StoreError::NotSupported { source })
            && kind_of(source) == ErrorKind::Unsupported,
{
    match mode {
        PutMode::Overwrite => Ok(WriteCondition::Unconditional),
        PutMode::Create => Ok(WriteCondition::IfNotExists),
        PutMode::Update { e_tag, .. } => match e_tag {
            Some(t) => Ok(WriteCondition::IfMatch(t.clone())),
            None => Err(StoreError::NotSupported { source: unsupported_error("etag is required for conditional put") }),
        },
    }
}

/// `e` is the error a failed write in `mode` reports: a failed condition
/// of a write that must create its object means the object already exists.
pub open spec fn put_reported_as(e: StoreError, kind: ErrorKind, source: opendal::Error, path: Seq<char>, mode: PutMode) -> bool {
    if mode is Create && kind == ErrorKind::ConditionNotMatch {
        e matches StoreError::AlreadyExists { path: p, source: s } && p@ == path && s == source
    } else {
        reported_as(e, kind, source, path)
    }
}

/// The error a write in `mode` on `path` reports for an OpenDAL error of
/// category `kind`.
pub fn put_error_of_kind(kind: ErrorKind, err: opendal::Error, path: &str, mode: &PutMode) -> (e: StoreError)
    ensures
        put_reported_as(e, kind, err, path@, *mode),
{
    let create = match mode {
        PutMode::Create => true,
        _ => false,
    };
    match report_error_of_kind(kind, err, path) {
        StoreError::Precondition { path, source } if create => StoreError::AlreadyExists { path, source },
        e => e,
    }
}

/// Reports an OpenDAL error of a write in `mode` on `path`.
pub fn put_error(err: opendal::Error, path: &str, mode: &PutMode) -> (e: StoreError)
    ensures
        put_reported_as(e, kind_of(err), err, path@, *mode),
{
    let kind = error_kind(&err);
    put_error_of_kind(kind, err, path, mode)
}

/// How a copy treats an object already at its destination, as
/// `object_store::CopyMode` says it.
#[derive(Clone, Copy, Debug, PartialEq, Eq, Structural)]
pub enum CopyMode {
    /// Replace it.
    Overwrite,
    /// Fail if there is one.
    Create,
}

/// Whether a copy in `mode` asks OpenDAL to copy only if the destination
/// does not exist.
pub fn copy_if_not_exists(mode: CopyMode) -> (if_not_exists: bool)
    ensures
        if_not_exists <==> mode == CopyMode::Create,
{
    match mode {
        CopyMode::Create => true,
        CopyMode::Overwrite => false,
    }
}

/// `e` is the error a failed copy from `from` to `to` reports: when the
/// copy must not replace an object and OpenDAL finds one, the destination
/// already exists; any other failure is reported on the source path.
pub open spec fn copy_reported_as(
    e: StoreError,
    kind: ErrorKind,
    source: opendal::Error,
    from: Seq<char>,
    to: Seq<char>,
    if_not_exists: bool,
) -> bool {
    if if_not_exists && kind == ErrorKind::AlreadyExists {
        e matches StoreError::AlreadyExists { path: p, source: s } && p@ == to && s == source
    } else {
        reported_as(e, kind, source, from)
    }
}

/// The error a copy reports for an OpenDAL error of category `kind`.
pub fn copy_error_of_kind(kind: ErrorKind, err: opendal::Error, from: &str, to: &str, if_not_exists: bool) -> (e: StoreError)
    ensures
        copy_reported_as(e, kind, err, from@, to@, if_not_exists),
{
    if if_not_exists && kind == ErrorKind::AlreadyExists {
        StoreError::AlreadyExists { path: to.to_owned(), source: err }
    } else {
        report_error_of_kind(kind, err, from)
    }
}

/// Reports an OpenDAL error of a copy from `from` to `to`.
pub fn copy_error(err: opendal::Error, from: &str, to: &str, if_not_exists: bool) -> (e: StoreError)
    ensures
        copy_reported_as(e, kind_of(err), err, from@, to@, if_not_exists),
{
    let kind = error_kind(&err);
    copy_error_of_kind(kind, err, from, to, if_not_exists)
}

/// A write that may replace its object, and a copy that may replace its
/// destination, report failures exactly as any other operation does.
pub proof fn lemma_unconditional_reports_plainly(
    e: StoreError,
    kind: ErrorKind,
    source: opendal::Error,
    from: Seq<char>,
    to: Seq<char>,
)
    ensures
        put_reported_as(e, kind, source, from, PutMode::Overwrite) == reported_as(e, kind, source, from),
        copy_reported_as(e, kind, source, from, to, false) == reported_as(e, kind, source, from),
{
}

/// Only a write that must create its object turns a failed condition into
/// "already exists": the failed condition of an update (a stale entity
/// tag) or of an overwrite is a failed precondition on the write's path.
/// Every other failure of a write is reported as any operation reports it.
pub proof fn lemma_put_failed_condition(
    e: StoreError,
    kind: ErrorKind,
    source: opendal::Error,
    path: Seq<char>,
    mode: PutMode,
)
    requires
        put_reported_as(e, kind, source, path, mode),
    ensures
        kind == ErrorKind::ConditionNotMatch && mode is Create ==> (e matches StoreError::AlreadyExists {
            path: p,
            source: s,
        } && p@ == path && s == source),
        kind == ErrorKind::ConditionNotMatch && !(mode is Create) ==> (e matches StoreError::Precondition {
            path: p,
            source: s,
        } && p@ == path && s == source),
        e is AlreadyExists ==> (kind == ErrorKind::AlreadyExists || (kind == ErrorKind::ConditionNotMatch
            && mode is Create)),
        e is Precondition ==> (kind == ErrorKind::ConditionNotMatch && !(mode is Create)),
        kind != ErrorKind::ConditionNotMatch ==> reported_as(e, kind, source, path),
{
}

/// A copy that must not replace its destination reports an existing
/// destination as "already exists" at the destination; every other failure
/// of a copy, including an existing object when replacing is allowed, is
/// reported on the source path as any operation reports it.
pub proof fn lemma_copy_reports(
    e: StoreError,
    kind: ErrorKind,
    source: opendal::Error,
    from: Seq<char>,
    to: Seq<char>,
    if_not_exists: bool,
)
    requires
        copy_reported_as(e, kind, source, from, to, if_not_exists),
    ensures
        if_not_exists && kind == ErrorKind::AlreadyExists ==> (e matches StoreError::AlreadyExists {
            path: p,
            source: s,
        } && p@ == to && s == source),
        !if_not_exists && kind == ErrorKind::AlreadyExists ==> (e matches StoreError::AlreadyExists {
            path: p,
            ..
        } && p@ == from),
        kind != ErrorKind::AlreadyExists ==> reported_as(e, kind, source, from),
        e matches StoreError::NotFound { path: p, .. } ==> p@ == from,
        e matches StoreError::Precondition { path: p, .. } ==> p@ == from,
{
}

/// An attribute of an object, as `object_store::Attribute` names it.
pub enum AttributeKey {
    ContentDisposition,
    ContentEncoding,
    ContentLanguage,
    ContentType,
    CacheControl,
    StorageClass,
    /// A user metadata field with this key.
    Metadata(String),
    /// An attribute this store does not know.
    Other,
}

/// The options of a multipart upload, as OpenDAL's `WriteOptions` holds
/// them.
pub struct WriteSettings {
    /// How many parts are sent at once.
    pub concurrent: usize,
    pub cache_control: Option<String>,
    pub content_disposition: Option<String>,
    pub content_encoding: Option<String>,
    pub content_type: Option<String>,
    /// User metadata as key and value pairs, if there is any.
    pub user_metadata: Option<Vec<(String, String)>>,
}

/// The value of the last attribute of this kind.
pub open spec fn last_value(attrs: Seq<(AttributeKey, String)>, key: AttributeKey) -> Option<Seq<char>>
    decreases attrs.len(),
{
    if attrs.len() == 0 {
        None
    } else if attrs.last().0 == key {
        Some(attrs.last().1@)
    } else {
        last_value(attrs.drop_last(), key)
    }
}

/// The user metadata fields among the attributes, in order.
pub open spec fn metadata_fields(attrs: Seq<(AttributeKey, String)>) -> Seq<(Seq<char>, Seq<char>)>
    decreases attrs.len(),
{
    if attrs.len() == 0 {
        Seq::empty()
    } else {
        let rest = metadata_fields(attrs.drop_last());
        match attrs.last().0 {
            AttributeKey::Metadata(k) => rest.push((k@, attrs.last().1@)),
            _ => rest,
        }
    }
}

/// The attribute is a user metadata field.
pub open spec fn is_metadata_attribute(a: (AttributeKey, String)) -> bool {
    a.0 is Metadata
}

/// The key and value of a user metadata field.
pub open spec fn field_of(a: (AttributeKey, String)) -> (Seq<char>, Seq<char>) {
    match a.0 {
        AttributeKey::Metadata(k) => (k@, a.1@),
        _ => (Seq::empty(), a.1@),
    }
}

/// Every user metadata attribute reaches the upload: the fields sent are
/// the metadata attributes, one pair each, in their order, so there are
/// exactly as many as there are metadata attributes.
pub proof fn lemma_every_metadata_field_sent(attrs: Seq<(AttributeKey, String)>)
    ensures
        metadata_fields(attrs) == attrs.filter(|a: (AttributeKey, String)| is_metadata_attribute(a)).map_values(
            |a: (AttributeKey, String)| field_of(a),
        ),
        metadata_fields(attrs).len() == attrs.filter(|a: (AttributeKey, String)| is_metadata_attribute(a)).len(),
    decreases attrs.len(),
{
    reveal(Seq::filter);
    let pred = |a: (AttributeKey, String)| is_metadata_attribute(a);
    let f = |a: (AttributeKey, String)| field_of(a);
    if attrs.len() > 0 {
        lemma_every_metadata_field_sent(attrs.drop_last());
        let rest = attrs.drop_last().filter(pred);
        if pred(attrs.last()) {
            assert(rest.push(attrs.last()).map_values(f) =~= rest.map_values(f).push(f(attrs.last())));
        }
    } else {
        assert(attrs.filter(pred) =~= Seq::<(AttributeKey, String)>::empty());
        assert(attrs.filter(pred).map_values(f) =~= Seq::<(Seq<char>, Seq<char>)>::empty());
    }
}

/// Each metadata attribute's field is among those sent.
pub proof fn lemma_metadata_attribute_sent(attrs: Seq<(AttributeKey, String)>, i: int)
    requires
        0 <= i < attrs.len(),
        attrs[i].0 is Metadata,
    ensures
        metadata_fields(attrs).contains(field_of(attrs[i])),
    decreases attrs.len(),
{
    if i == attrs.len() - 1 {
        let rest = metadata_fields(attrs.drop_last());
        assert(metadata_fields(attrs) == rest.push(field_of(attrs[i])));
        assert(metadata_fields(attrs)[rest.len() as int] == field_of(attrs[i]));
    } else {
        assert(attrs.drop_last()[i] == attrs[i]);
        lemma_metadata_attribute_sent(attrs.drop_last(), i);
        let rest = metadata_fields(attrs.drop_last());
        let k = choose|k: int| 0 <= k < rest.len() && rest[k] == field_of(attrs[i]);
        if attrs.last().0 is Metadata {
            assert(metadata_fields(attrs)[k] == field_of(attrs[i]));
        } else {
            assert(metadata_fields(attrs) == rest);
        }
    }
}

/// The value sent for a header is that of the last attribute of its kind,
/// and none is sent where there is no such attribute.
pub proof fn lemma_last_header_wins(attrs: Seq<(AttributeKey, String)>, key: AttributeKey, i: int)
    ensures
        (0 <= i < attrs.len() && attrs[i].0 == key && forall|j: int| i < j < attrs.len() ==> attrs[j].0 != key)
            ==> last_value(attrs, key) == Some(attrs[i].1@),
        (forall|j: int| 0 <= j < attrs.len() ==> attrs[j].0 != key) ==> last_value(attrs, key) is None,
    decreases attrs.len(),
{
    if attrs.len() > 0 {
        let n = attrs.len() - 1;
        if 0 <= i < n {
            assert(forall|j: int| i < j < n ==> attrs.drop_last()[j] == attrs[j]);
            assert(attrs.drop_last()[i] == attrs[i]);
        }
        assert(forall|j: int| 0 <= j < n ==> attrs.drop_last()[j] == attrs[j]);
        lemma_last_header_wins(attrs.drop_last(), key, i);
        if (forall|j: int| 0 <= j < attrs.len() ==> attrs[j].0 != key) {
            assert(attrs[n].0 != key);
        }
    }
}

/// The options of a multipart upload with these attributes: the cache
/// control, content disposition, content encoding and content type are
/// sent as given, user metadata fields become user metadata (none at all
/// where there is no such field), and the content language and any other
/// attribute are not sent. Parts go out eight at a time.
pub fn multipart_write_settings(attrs: &Vec<(AttributeKey, String)>) -> (w: WriteSettings)
    ensures
        w.concurrent == DEFAULT_CONCURRENT,
        opt_string_view(w.cache_control) == last_value(attrs@, AttributeKey::CacheControl),
        opt_string_view(w.content_disposition) == last_value(attrs@, AttributeKey::ContentDisposition),
        opt_string_view(w.content_encoding) == last_value(attrs@, AttributeKey::ContentEncoding),
        opt_string_view(w.content_type) == last_value(attrs@, AttributeKey::ContentType),
        metadata_fields(attrs@).len() == 0 ==> w.user_metadata is None,
        w.user_metadata matches Some(m) ==> pairs_view(m@) == metadata_fields(attrs@) && m@.len() > 0,
        metadata_fields(attrs@).len() > 0 ==> w.user_metadata is Some,
{
    let mut cache_control: Option<String> = None;
    let mut content_disposition: Option<String> = None;
    let mut content_encoding: Option<String> = None;
    let mut content_type: Option<String> = None;
    let mut user_metadata: Vec<(String, String)> = Vec::new();
    let n = attrs.len();
    for i in 0..n
        invariant
            n == attrs@.len(),
            opt_string_view(cache_control) == last_value(attrs@.take(i as int), AttributeKey::CacheControl),
            opt_string_view(content_disposition) == last_value(attrs@.take(i as int), AttributeKey::ContentDisposition),
            opt_string_view(content_encoding) == last_value(attrs@.take(i as int), AttributeKey::ContentEncoding),
            opt_string_view(content_type) == last_value(attrs@.take(i as int), AttributeKey::ContentType),
            pairs_view(user_metadata@) == metadata_fields(attrs@.take(i as int)),
    {
        let ghost prefix = attrs@.take(i + 1);
        assert(prefix.drop_last() =~= attrs@.take(i as int));
        assert(prefix.last() == attrs@[i as int]);
        let value = attrs[i].1.clone();
        let ghost before = user_metadata@;
        match &attrs[i].0 {
            AttributeKey::CacheControl => {
                cache_control = Some(value);
            },
            AttributeKey::ContentDisposition => {
                content_disposition = Some(value);
            },
            AttributeKey::ContentEncoding => {
                content_encoding = Some(value);
            },
            AttributeKey::ContentType => {
                content_type = Some(value);
            },
            AttributeKey::Metadata(k) => {
                user_metadata.push((k.clone(), value));
                assert(pairs_view(user_metadata@) =~= pairs_view(before).push((k@, attrs@[i as int].1@)));
            },
            _ => {},
        }
    }
    assert(attrs@.take(n as int) =~= attrs@);
    let user_metadata = if user_metadata.len() == 0 {
        None
    } else {
        Some(user_metadata)
    };
    WriteSettings {
        concurrent: DEFAULT_CONCURRENT,
        cache_control,
        content_disposition,
        content_encoding,
        content_type,
        user_metadata,
    }
}

} // verus!
