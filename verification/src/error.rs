//! Error classification: how an OpenDAL failure is reported to an
//! `object_store` caller.

use vstd::prelude::*;

use opendal::ErrorKind as DalKind;

verus! {

/// OpenDAL's error value. It is carried through unchanged as the source of
/// the error that the store reports.
#[verifier::external_type_specification]
#[verifier::external_body]
pub struct ExOpendalError(opendal::Error);

/// The error `object_store` reports for a path it cannot parse.
#[verifier::external_type_specification]
#[verifier::external_body]
pub struct ExPathError(object_store::path::Error);

/// The categories of an OpenDAL error, one for each variant of
/// `opendal::ErrorKind`.
#[derive(Clone, Copy, Debug, PartialEq, Eq, Structural)]
pub enum ErrorKind {
    Unexpected,
    Unsupported,
    ConfigInvalid,
    NotFound,
    PermissionDenied,
    IsADirectory,
    NotADirectory,
    AlreadyExists,
    RateLimited,
    IsSameFile,
    ConditionNotMatch,
    RangeNotSatisfied,
    Conflict,
}

/// What a generic error wraps.
#[derive(Debug)]
pub enum ErrorSource {
    /// A failure reported by OpenDAL.
    Opendal(opendal::Error),
    /// A listed location that is not a valid path.
    Path(object_store::path::Error),
}

/// The error the store reports, one variant for each variant of
/// `object_store::Error` that the store produces.
#[allow(inconsistent_fields)]
#[derive(Debug)]
pub enum StoreError {
    /// The object at `path` does not exist.
    NotFound { path: String, source: opendal::Error },
    /// The operation is not supported by the backend.
    NotSupported { source: opendal::Error },
    /// An object already exists at `path`.
    AlreadyExists { path: String, source: opendal::Error },
    /// A condition of the request on `path` failed.
    Precondition { path: String, source: opendal::Error },
    /// Any other failure; `store` names its category.
    Generic { store: &'static str, source: ErrorSource },
}

/// The name `opendal::ErrorKind::into_static` gives each category.
pub open spec fn kind_name(kind: ErrorKind) -> Seq<char> {
    match kind {
        ErrorKind::Unexpected => "Unexpected"@,
        ErrorKind::Unsupported => "Unsupported"@,
        ErrorKind::ConfigInvalid => "ConfigInvalid"@,
        ErrorKind::NotFound => "NotFound"@,
        ErrorKind::PermissionDenied => "PermissionDenied"@,
        ErrorKind::IsADirectory => "IsADirectory"@,
        ErrorKind::NotADirectory => "NotADirectory"@,
        ErrorKind::AlreadyExists => "AlreadyExists"@,
        ErrorKind::RateLimited => "RateLimited"@,
        ErrorKind::IsSameFile => "IsSameFile"@,
        ErrorKind::ConditionNotMatch => "ConditionNotMatch"@,
        ErrorKind::RangeNotSatisfied => "RangeNotSatisfied"@,
        ErrorKind::Conflict => "Conflict"@,
    }
}

/// `e` is the error reported for an OpenDAL error `source` of category
/// `kind` on `path`: the four categories that `object_store` names keep
/// their meaning, every other one becomes a generic error named after it.
pub open spec fn reported_as(e: StoreError, kind: ErrorKind, source: opendal::Error, path: Seq<char>) -> bool {
    match kind {
        ErrorKind::NotFound => e matches StoreError::NotFound { path: p, source: s } && p@ == path && s == source,
        ErrorKind::Unsupported => e matches StoreError::NotSupported { source: s } && s == source,
        ErrorKind::AlreadyExists => e matches StoreError::AlreadyExists { path: p, source: s } && p@ == path
            && s == source,
        ErrorKind::ConditionNotMatch => e matches StoreError::Precondition { path: p, source: s } && p@ == path
            && s == source,
        _ => e matches StoreError::Generic { store: n, source: ErrorSource::Opendal(s) } && n@ == kind_name(kind)
            && s == source,
    }
}

/// The error a read that skipped the metadata lookup reports: a backend
/// that cannot serve it, or cannot satisfy its range, reports "not
/// supported"; every other failure is reported as usual.
pub open spec fn reported_without_stat(e: StoreError, kind: ErrorKind, source: opendal::Error, path: Seq<char>) -> bool {
    if kind == ErrorKind::Unsupported || kind == ErrorKind::RangeNotSatisfied {
        e matches StoreError::NotSupported { source: s } && s == source
    } else {
        reported_as(e, kind, source, path)
    }
}

/// The category `opendal::Error::kind` returns for an error, by the
/// matching variant of [`ErrorKind`].
pub uninterp spec fn kind_of(err: opendal::Error) -> ErrorKind;

/// Calls `opendal::Error::kind`, which returns a field of the error, and
/// names its result by the matching variant of [`ErrorKind`].
/// `opendal::ErrorKind` is non-exhaustive; the version used here has
/// exactly the thirteen variants listed, so the last arm is never taken.
#[verifier::external_body]
pub(crate) fn error_kind(err: &opendal::Error) -> (k: ErrorKind)
    ensures
        k == kind_of(*err),
{
    match err.kind() {
        DalKind::Unexpected => ErrorKind::Unexpected, DalKind::Unsupported => ErrorKind::Unsupported,
        DalKind::ConfigInvalid => ErrorKind::ConfigInvalid, DalKind::NotFound => ErrorKind::NotFound,
        DalKind::PermissionDenied => ErrorKind::PermissionDenied, DalKind::IsADirectory => ErrorKind::IsADirectory,
        DalKind::NotADirectory => ErrorKind::NotADirectory, DalKind::AlreadyExists => ErrorKind::AlreadyExists,
        DalKind::RateLimited => ErrorKind::RateLimited, DalKind::IsSameFile => ErrorKind::IsSameFile,
        DalKind::ConditionNotMatch => ErrorKind::ConditionNotMatch,
        DalKind::RangeNotSatisfied => ErrorKind::RangeNotSatisfied, DalKind::Conflict => ErrorKind::Conflict,
        _ => ErrorKind::Unexpected,
    }
}

/// Calls `opendal::ErrorKind::into_static` on the OpenDAL category that
/// `kind` stands for. Its source is a table that gives each category its
/// variant's name, which the contract states.
#[verifier::external_body]
pub(crate) fn kind_static_name(kind: ErrorKind) -> (name: &'static str)
    ensures
        name@ == kind_name(kind),
{
    let k = match kind {
        ErrorKind::Unexpected => DalKind::Unexpected, ErrorKind::Unsupported => DalKind::Unsupported,
        ErrorKind::ConfigInvalid => DalKind::ConfigInvalid, ErrorKind::NotFound => DalKind::NotFound,
        ErrorKind::PermissionDenied => DalKind::PermissionDenied, ErrorKind::IsADirectory => DalKind::IsADirectory,
        ErrorKind::NotADirectory => DalKind::NotADirectory, ErrorKind::AlreadyExists => DalKind::AlreadyExists,
        ErrorKind::RateLimited => DalKind::RateLimited, ErrorKind::IsSameFile => DalKind::IsSameFile,
        ErrorKind::ConditionNotMatch => DalKind::ConditionNotMatch,
        ErrorKind::RangeNotSatisfied => DalKind::RangeNotSatisfied, ErrorKind::Conflict => DalKind::Conflict,
    };
    k.into_static()
}

/// The error reported for an OpenDAL error `err` of category `kind` on
/// `path`.
pub fn report_error_of_kind(kind: ErrorKind, err: opendal::Error, path: &str) -> (e: StoreError)
    ensures
        reported_as(e, kind, err, path@),
{
    match kind {
        ErrorKind::NotFound => StoreError::NotFound { path: path.to_owned(), source: err },
        ErrorKind::Unsupported => StoreError::NotSupported { source: err },
        ErrorKind::AlreadyExists => StoreError::AlreadyExists { path: path.to_owned(), source: err },
        ErrorKind::ConditionNotMatch => StoreError::Precondition { path: path.to_owned(), source: err },
        _ => StoreError::Generic { store: kind_static_name(kind), source: ErrorSource::Opendal(err) },
    }
}

/// Reports an OpenDAL error on `path` to an `object_store` caller.
pub fn format_object_store_error(err: opendal::Error, path: &str) -> (e: StoreError)
    ensures
        reported_as(e, kind_of(err), err, path@),
{
    let kind = error_kind(&err);
    report_error_of_kind(kind, err, path)
}

/// The error reported, for an OpenDAL error of category `kind`, by a read
/// that skipped the metadata lookup.
pub fn report_without_stat_error_of_kind(kind: ErrorKind, err: opendal::Error, path: &str) -> (e: StoreError)
    ensures
        reported_without_stat(e, kind, err, path@),
{
    match kind {
        ErrorKind::Unsupported | ErrorKind::RangeNotSatisfied => StoreError::NotSupported { source: err },
        _ => report_error_of_kind(kind, err, path),
    }
}

/// Reports an error of a read that skipped the metadata lookup.
pub fn format_without_stat_error(err: opendal::Error, path: &str) -> (e: StoreError)
    ensures
        reported_without_stat(e, kind_of(err), err, path@),
{
    let kind = error_kind(&err);
    report_without_stat_error_of_kind(kind, err, path)
}

/// A read that skipped the metadata lookup failed with `e`: it is retried
/// with the lookup exactly when the backend reported it unsupported.
pub fn retries_with_stat(e: &StoreError) -> (retry: bool)
    ensures
        retry <==> e is NotSupported,
{
    match e {
        StoreError::NotSupported { .. } => true,
        _ => false,
    }
}

/// A read that skips the metadata lookup falls back to one that makes it
/// exactly when OpenDAL reports the operation unsupported or the range
/// unsatisfiable.
pub proof fn lemma_fallback_exactly_on_unsupported(kind: ErrorKind, source: opendal::Error, path: Seq<char>, e: StoreError)
    requires
        reported_without_stat(e, kind, source, path),
    ensures
        (e is NotSupported) <==> (kind == ErrorKind::Unsupported || kind == ErrorKind::RangeNotSatisfied),
{
}

/// An error the store reports for a named category never loses the path:
/// a missing object, an existing one and a failed condition each name the
/// path the operation was on.
pub proof fn lemma_path_kept(kind: ErrorKind, source: opendal::Error, path: Seq<char>, e: StoreError)
    requires
        reported_as(e, kind, source, path),
    ensures
        e matches StoreError::NotFound { path: p, .. } ==> p@ == path,
        e matches StoreError::AlreadyExists { path: p, .. } ==> p@ == path,
        e matches StoreError::Precondition { path: p, .. } ==> p@ == path,
        e is NotFound <==> kind == ErrorKind::NotFound,
        e is AlreadyExists <==> kind == ErrorKind::AlreadyExists,
        e is Precondition <==> kind == ErrorKind::ConditionNotMatch,
        e is NotSupported <==> kind == ErrorKind::Unsupported,
{
}

/// The generic errors are exactly the categories `object_store` has no
/// variant for, each named after its category, and every report keeps the
/// OpenDAL error as its source.
pub proof fn lemma_generic_named_after_kind(kind: ErrorKind, source: opendal::Error, path: Seq<char>, e: StoreError)
    requires
        reported_as(e, kind, source, path),
    ensures
        (e is Generic) <==> !(kind == ErrorKind::NotFound || kind == ErrorKind::Unsupported || kind
            == ErrorKind::AlreadyExists || kind == ErrorKind::ConditionNotMatch),
        e matches StoreError::Generic { store: n, source: ErrorSource::Opendal(s) } ==> n@ == kind_name(kind)
            && s == source,
        e matches StoreError::Generic { source: src, .. } ==> src is Opendal,
        e matches StoreError::NotFound { source: s, .. } ==> s == source,
        e matches StoreError::NotSupported { source: s } ==> s == source,
        e matches StoreError::AlreadyExists { source: s, .. } ==> s == source,
        e matches StoreError::Precondition { source: s, .. } ==> s == source,
{
}

/// A read that skipped the metadata lookup reports every failure other
/// than an unsupported operation or an unsatisfiable range exactly as
/// every other operation reports it: a missing object is not found at the
/// read's path, a failed condition is a failed precondition on it, an
/// existing object already exists there, and any other category is a
/// generic error named after it.
pub proof fn lemma_without_stat_reports_like_others(kind: ErrorKind, source: opendal::Error, path: Seq<char>, e: StoreError)
    requires
        reported_without_stat(e, kind, source, path),
    ensures
        !(kind == ErrorKind::Unsupported || kind == ErrorKind::RangeNotSatisfied) ==> reported_as(
            e,
            kind,
            source,
            path,
        ),
        kind == ErrorKind::NotFound ==> (e matches StoreError::NotFound { path: p, source: s } && p@ == path
            && s == source),
        kind == ErrorKind::ConditionNotMatch ==> (e matches StoreError::Precondition { path: p, source: s } && p@
            == path && s == source),
        kind == ErrorKind::AlreadyExists ==> (e matches StoreError::AlreadyExists { path: p, source: s } && p@
            == path && s == source),
        (kind == ErrorKind::Unsupported || kind == ErrorKind::RangeNotSatisfied) ==> (e matches StoreError::NotSupported { source: s } && s == source),
        !(kind == ErrorKind::NotFound || kind == ErrorKind::Unsupported || kind == ErrorKind::AlreadyExists
            || kind == ErrorKind::ConditionNotMatch || kind == ErrorKind::RangeNotSatisfied) ==> (e matches StoreError::Generic { store: n, .. } && n@ == kind_name(kind)),
{
}

} // verus!
