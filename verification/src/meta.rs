//! Object metadata: what OpenDAL reports of an object, turned into what
//! `object_store` reports, and the conditions of a read turned into the
//! conditions OpenDAL checks.

use vstd::prelude::*;

use crate::path::{encode_listed_key, listed_location};

verus! {

/// OpenDAL's timestamp, handed on to OpenDAL's request options.
#[verifier::external_type_specification]
#[verifier::external_body]
pub struct ExTimestamp(opendal::raw::Timestamp);

/// Whether `chrono::DateTime::<Utc>::from_timestamp` accepts these
/// seconds and nanoseconds.
pub uninterp spec fn chrono_accepts(secs: i64, nanos: u32) -> bool;

/// Whether `opendal::raw::Timestamp::new` (through `jiff::Timestamp::new`)
/// accepts these seconds and nanoseconds: the seconds lie in the range jiff
/// supports, the nanoseconds lie within one second either way, and the
/// earliest second takes no negative nanoseconds.
pub open spec fn jiff_accepts(secs: i64, nanos: i32) -> bool {
    &&& -377705023201 <= secs <= 253402207200
    &&& -999_999_999 <= nanos <= 999_999_999
    &&& !(secs == -377705023201 && nanos < 0)
}

/// Calls `chrono::DateTime::<Utc>::from_timestamp` and tells whether it
/// returned a date. Its source refuses nanoseconds of two seconds or more.
#[verifier::external_body]
pub(crate) fn chrono_timestamp_exists(secs: i64, nanos: u32) -> (ok: bool)
    ensures
        ok == chrono_accepts(secs, nanos),
        nanos >= 2_000_000_000 ==> !ok,
{
    chrono::DateTime::from_timestamp(secs, nanos).is_some()
}

/// The instant `opendal::raw::Timestamp::new` makes of these seconds and
/// nanoseconds, where it accepts them.
pub uninterp spec fn opendal_instant(secs: i64, nanos: i32) -> opendal::raw::Timestamp;

/// The seconds and signed sub-second nanoseconds of OpenDAL's timestamp,
/// as `jiff::Timestamp::as_second` and `subsec_nanosecond` return them.
pub uninterp spec fn instant_parts(t: opendal::raw::Timestamp) -> (i64, i32);

/// The seconds and nanoseconds `jiff::Timestamp::new` stores for accepted
/// components: as given where either is zero or both have the same sign,
/// else one second moved into the nanoseconds so that both share a sign.
pub open spec fn jiff_normalized(secs: i64, nanos: i32) -> (i64, i32) {
    if nanos == 0 || secs == 0 || (secs > 0) == (nanos > 0) {
        (secs, nanos)
    } else if secs < 0 {
        ((secs + 1) as i64, (nanos - 1_000_000_000) as i32)
    } else {
        ((secs - 1) as i64, (nanos + 1_000_000_000) as i32)
    }
}

/// Calls `opendal::raw::Timestamp::new`. Its source forwards to
/// `jiff::Timestamp::new`, whose bounds the contract states, and which
/// stores the components as `jiff_normalized` gives them.
#[verifier::external_body]
pub(crate) fn opendal_timestamp(secs: i64, nanos: i32) -> (t: Option<opendal::raw::Timestamp>)
    ensures
        t == if jiff_accepts(secs, nanos) {
            Some(opendal_instant(secs, nanos))
        } else {
            None
        },
        t matches Some(x) ==> instant_parts(x) == jiff_normalized(secs, nanos),
{
    opendal::raw::Timestamp::new(secs, nanos).ok()
}

/// Calls `opendal::raw::Timestamp::into_inner` and reads the seconds and
/// sub-second nanoseconds of the `jiff::Timestamp` it returns.
#[verifier::external_body]
pub(crate) fn timestamp_parts(ts: &opendal::raw::Timestamp) -> (parts: (i64, i32))
    ensures
        parts == instant_parts(*ts),
{
    let t = ts.into_inner();
    (t.as_second(), t.subsec_nanosecond())
}

/// The date `chrono` makes of OpenDAL's timestamp `(secs, subsec)`: the
/// sub-second nanoseconds are read as unsigned, so a negative value (an
/// instant before the epoch with a fractional second) is refused.
pub open spec fn datetime_of(secs: i64, subsec: i32) -> Option<(i64, u32)> {
    if chrono_accepts(secs, subsec as u32) {
        Some((secs, subsec as u32))
    } else {
        None
    }
}

/// The date `chrono` makes of an OpenDAL timestamp.
pub open spec fn datetime_of_instant(t: opendal::raw::Timestamp) -> Option<(i64, u32)> {
    datetime_of(instant_parts(t).0, instant_parts(t).1)
}

/// Converts OpenDAL's timestamp, given by its seconds and its signed
/// sub-second nanoseconds, into the seconds and nanoseconds of a
/// `chrono` date, where `chrono` can represent it.
pub fn datetime_from_parts(secs: i64, subsec: i32) -> (dt: Option<(i64, u32)>)
    ensures
        dt == datetime_of(secs, subsec),
        subsec < 0 ==> dt is None,
{
    let nanos = subsec as u32;
    assert(subsec < 0 ==> subsec as u32 >= 2_147_483_648u32) by (bit_vector);
    if chrono_timestamp_exists(secs, nanos) {
        Some((secs, nanos))
    } else {
        None
    }
}

/// Converts OpenDAL's timestamp into the seconds and nanoseconds of a
/// `chrono` date, where `chrono` can represent it.
pub fn timestamp_to_datetime(ts: opendal::raw::Timestamp) -> (dt: Option<(i64, u32)>)
    ensures
        dt == datetime_of_instant(ts),
        instant_parts(ts).1 < 0 ==> dt is None,
{
    let (secs, subsec) = timestamp_parts(&ts);
    datetime_from_parts(secs, subsec)
}

/// The timestamp OpenDAL receives for a `chrono` date given by its seconds
/// and nanoseconds, where OpenDAL can represent it.
pub open spec fn timestamp_of(secs: i64, nanos: u32) -> Option<opendal::raw::Timestamp> {
    if jiff_accepts(secs, nanos as i32) {
        Some(opendal_instant(secs, nanos as i32))
    } else {
        None
    }
}

/// Converts a `chrono` date, given by its seconds and nanoseconds, into
/// OpenDAL's timestamp, where OpenDAL can represent it. A leap second
/// (nanoseconds of a second or more) has no timestamp. A date at or after
/// the epoch comes back unchanged through [`timestamp_to_datetime`].
pub fn datetime_to_timestamp(secs: i64, nanos: u32) -> (t: Option<opendal::raw::Timestamp>)
    ensures
        t == timestamp_of(secs, nanos),
        nanos < 2_000_000_000 ==> (t is Some <==> (-377705023201 <= secs <= 253402207200 && nanos
            < 1_000_000_000)),
        t matches Some(x) ==> (secs >= 0 && nanos < 2_000_000_000 && chrono_accepts(secs, nanos)
            ==> datetime_of_instant(x) == Some(
            (secs, nanos),
        )),
{
    let t = opendal_timestamp(secs, nanos as i32);
    proof {
        assert(nanos < 2_000_000_000 ==> (nanos as i32) as int == nanos as int) by (bit_vector);
        assert(nanos < 2_000_000_000 && (nanos as i32) >= 0 ==> ((nanos as i32) as u32) == nanos) by (bit_vector);
    }
    t
}

/// The view of an optional string.
pub open spec fn opt_string_view(o: Option<String>) -> Option<Seq<char>> {
    match o {
        Some(s) => Some(s@),
        None => None,
    }
}

/// A copy of an optional string.
pub fn clone_opt_string(o: &Option<String>) -> (r: Option<String>)
    ensures
        opt_string_view(r) == opt_string_view(*o),
{
    match o {
        Some(s) => Some(s.clone()),
        None => None,
    }
}

/// The pairs of strings, by their views.
pub open spec fn pairs_view(pairs: Seq<(String, String)>) -> Seq<(Seq<char>, Seq<char>)> {
    pairs.map_values(|p: (String, String)| (p.0@, p.1@))
}

/// What OpenDAL reports of an object, as `opendal::Metadata` holds it.
pub struct EntryMetadata {
    /// The entry is a directory.
    pub is_dir: bool,
    /// The last modification.
    pub last_modified: Option<opendal::raw::Timestamp>,
    /// The length in bytes.
    pub content_length: u64,
    /// The entity tag.
    pub etag: Option<String>,
    /// The version.
    pub version: Option<String>,
    /// User metadata, as key and value pairs.
    pub user_metadata: Option<Vec<(String, String)>>,
}

/// What `object_store` reports of an object, as `object_store::ObjectMeta`
/// holds it.
pub struct ObjectEntry {
    /// The text of the object's path.
    pub location: String,
    /// The last modification: seconds and nanoseconds since the epoch.
    pub last_modified: (i64, u32),
    /// The length in bytes.
    pub size: u64,
    /// The entity tag.
    pub e_tag: Option<String>,
    /// The version.
    pub version: Option<String>,
}

/// The last modification reported for OpenDAL's timestamp: its date where
/// `chrono` has one, else the epoch.
pub open spec fn modified_or_epoch(last_modified: Option<opendal::raw::Timestamp>) -> (i64, u32) {
    match last_modified {
        Some(t) => match datetime_of_instant(t) {
            Some(dt) => dt,
            None => (0, 0),
        },
        None => (0, 0),
    }
}

/// `entry` is what `object_store` reports of the object listed under `key`
/// with OpenDAL metadata `meta`.
pub open spec fn describes(entry: ObjectEntry, key: Seq<char>, meta: EntryMetadata) -> bool {
    &&& entry.location@ == listed_location(key)
    &&& entry.last_modified == modified_or_epoch(meta.last_modified)
    &&& entry.size == meta.content_length
    &&& opt_string_view(entry.e_tag) == opt_string_view(meta.etag)
    &&& opt_string_view(entry.version) == opt_string_view(meta.version)
}

/// What `object_store` reports of an object is its metadata from OpenDAL:
/// the location `Path::from` builds from its key, its length, entity tag
/// and version unchanged, and its modification date where there is one
/// that `chrono` represents, else the epoch.
pub proof fn lemma_entry_from_metadata(entry: ObjectEntry, key: Seq<char>, meta: EntryMetadata)
    requires
        describes(entry, key, meta),
    ensures
        entry.location@ == listed_location(key),
        entry.size == meta.content_length,
        opt_string_view(entry.e_tag) == opt_string_view(meta.etag),
        opt_string_view(entry.version) == opt_string_view(meta.version),
        meta.last_modified is None ==> entry.last_modified == (0i64, 0u32),
        meta.last_modified matches Some(t) ==> entry.last_modified == (if chrono_accepts(
            instant_parts(t).0,
            instant_parts(t).1 as u32,
        ) {
            (instant_parts(t).0, instant_parts(t).1 as u32)
        } else {
            (0i64, 0u32)
        }),
{
}

/// The pairs' views hold each pair's key and value, in order.
pub proof fn lemma_pairs_view(pairs: Seq<(String, String)>)
    ensures
        pairs_view(pairs).len() == pairs.len(),
        forall|i: int| 0 <= i < pairs.len() ==> #[trigger] pairs_view(pairs)[i] == (pairs[i].0@, pairs[i].1@),
{
}

/// What `object_store` reports of the object stored under `key`: its path,
/// its last modification (the epoch where there is none or `chrono` cannot
/// represent it), its length, its entity tag and its version.
pub fn format_object_meta(key: &str, meta: &EntryMetadata) -> (entry: ObjectEntry)
    ensures
        describes(entry, key@, *meta),
{
    let last_modified = match meta.last_modified {
        Some(t) => match timestamp_to_datetime(t) {
            Some(dt) => dt,
            None => (0, 0),
        },
        None => (0, 0),
    };
    ObjectEntry {
        location: encode_listed_key(key),
        last_modified,
        size: meta.content_length,
        e_tag: clone_opt_string(&meta.etag),
        version: clone_opt_string(&meta.version),
    }
}

/// The attributes `object_store` reports of an object: each pair of its
/// user metadata, as a metadata attribute, in the order OpenDAL gives them.
pub fn format_object_attributes(meta: &EntryMetadata) -> (attrs: Vec<(String, String)>)
    ensures
        pairs_view(attrs@) == match meta.user_metadata {
            Some(m) => pairs_view(m@),
            None => Seq::empty(),
        },
{
    let mut attrs: Vec<(String, String)> = Vec::new();
    match &meta.user_metadata {
        None => {},
        Some(m) => {
            let n = m.len();
            for i in 0..n
                invariant
                    n == m@.len(),
                    pairs_view(attrs@) == pairs_view(m@.take(i as int)),
            {
                let pair = &m[i];
                let k = pair.0.clone();
                let v = pair.1.clone();
                let ghost before = attrs@;
                attrs.push((k, v));
                assert(m@.take(i + 1) =~= m@.take(i as int).push(m@[i as int]));
                assert(pairs_view(attrs@) =~= pairs_view(before).push((m@[i as int].0@, m@[i as int].1@)));
                assert(pairs_view(m@.take(i + 1)) =~= pairs_view(m@.take(i as int)).push(
                    (m@[i as int].0@, m@[i as int].1@),
                ));
            }
            assert(m@.take(n as int) =~= m@);
        },
    }
    assert(pairs_view(attrs@) =~= match meta.user_metadata {
        Some(m) => pairs_view(m@),
        None => Seq::empty(),
    });
    attrs
}

/// The conditions of a read, as `object_store::GetOptions` holds them, with
/// dates as seconds and nanoseconds.
pub struct GetConditions {
    /// The version to read.
    pub version: Option<String>,
    /// Read only if the entity tag matches.
    pub if_match: Option<String>,
    /// Read only if the entity tag does not match.
    pub if_none_match: Option<String>,
    /// Read only if modified since.
    pub if_modified_since: Option<(i64, u32)>,
    /// Read only if not modified since.
    pub if_unmodified_since: Option<(i64, u32)>,
}

/// The conditions OpenDAL checks on a read or a metadata lookup, as its
/// `ReaderOptions` and `StatOptions` hold them.
pub struct RequestConditions {
    /// The version to read.
    pub version: Option<String>,
    /// Read only if the entity tag matches.
    pub if_match: Option<String>,
    /// Read only if the entity tag does not match.
    pub if_none_match: Option<String>,
    /// Read only if modified since.
    pub if_modified_since: Option<opendal::raw::Timestamp>,
    /// Read only if not modified since.
    pub if_unmodified_since: Option<opendal::raw::Timestamp>,
    /// The length of the object, where it is known (reads only).
    pub content_length_hint: Option<u64>,
}

/// The timestamp a condition on a date becomes: none without a date, and
/// none where OpenDAL cannot represent the date.
pub open spec fn date_instant(d: Option<(i64, u32)>) -> Option<opendal::raw::Timestamp> {
    match d {
        Some((secs, nanos)) => timestamp_of(secs, nanos),
        None => None,
    }
}

/// `c` carries the conditions of `options`, with the length hint `hint`.
pub open spec fn carries(c: RequestConditions, options: GetConditions, hint: Option<u64>) -> bool {
    &&& opt_string_view(c.version) == opt_string_view(options.version)
    &&& opt_string_view(c.if_match) == opt_string_view(options.if_match)
    &&& opt_string_view(c.if_none_match) == opt_string_view(options.if_none_match)
    &&& c.if_modified_since == date_instant(options.if_modified_since)
    &&& c.if_unmodified_since == date_instant(options.if_unmodified_since)
    &&& c.content_length_hint == hint
}

/// OpenDAL's timestamp for a date, where there is one and OpenDAL can
/// represent it.
fn date_condition(d: Option<(i64, u32)>) -> (t: Option<opendal::raw::Timestamp>)
    ensures
        t == date_instant(d),
{
    match d {
        Some((secs, nanos)) => datetime_to_timestamp(secs, nanos),
        None => None,
    }
}

/// The conditions OpenDAL checks on a read: those of the request, with the
/// object's length where it is known. A date that OpenDAL cannot represent
/// is dropped.
pub fn format_reader_options(options: &GetConditions, content_length_hint: Option<u64>) -> (c: RequestConditions)
    ensures
        carries(c, *options, content_length_hint),
        opt_string_view(c.version) == opt_string_view(options.version),
        opt_string_view(c.if_match) == opt_string_view(options.if_match),
        opt_string_view(c.if_none_match) == opt_string_view(options.if_none_match),
        c.content_length_hint == content_length_hint,
{
    RequestConditions {
        version: clone_opt_string(&options.version),
        if_match: clone_opt_string(&options.if_match),
        if_none_match: clone_opt_string(&options.if_none_match),
        if_modified_since: date_condition(options.if_modified_since),
        if_unmodified_since: date_condition(options.if_unmodified_since),
        content_length_hint,
    }
}

/// The conditions OpenDAL checks on a metadata lookup: those of the
/// request, without a length hint.
pub fn format_stat_options(options: &GetConditions) -> (c: RequestConditions)
    ensures
        carries(c, *options, None),
        opt_string_view(c.version) == opt_string_view(options.version),
        opt_string_view(c.if_match) == opt_string_view(options.if_match),
        opt_string_view(c.if_none_match) == opt_string_view(options.if_none_match),
        c.content_length_hint is None,
{
    RequestConditions {
        version: clone_opt_string(&options.version),
        if_match: clone_opt_string(&options.if_match),
        if_none_match: clone_opt_string(&options.if_none_match),
        if_modified_since: date_condition(options.if_modified_since),
        if_unmodified_since: date_condition(options.if_unmodified_since),
        content_length_hint: None,
    }
}

/// Every condition of a request reaches OpenDAL unchanged: the version,
/// the entity tags to match and not to match, and the length hint are
/// those of the request, and each date becomes the instant OpenDAL makes
/// of its seconds and nanoseconds, or is dropped exactly where OpenDAL
/// cannot represent it.
pub proof fn lemma_conditions_reach_opendal(c: RequestConditions, options: GetConditions, hint: Option<u64>)
    requires
        carries(c, options, hint),
    ensures
        opt_string_view(c.version) == opt_string_view(options.version),
        opt_string_view(c.if_match) == opt_string_view(options.if_match),
        opt_string_view(c.if_none_match) == opt_string_view(options.if_none_match),
        c.content_length_hint == hint,
        options.if_modified_since is None ==> c.if_modified_since is None,
        options.if_unmodified_since is None ==> c.if_unmodified_since is None,
        options.if_modified_since matches Some((s, n)) ==> c.if_modified_since == if jiff_accepts(s, n as i32) {
            Some(opendal_instant(s, n as i32))
        } else {
            None
        },
        options.if_unmodified_since matches Some((s, n)) ==> c.if_unmodified_since == if jiff_accepts(
            s,
            n as i32,
        ) {
            Some(opendal_instant(s, n as i32))
        } else {
            None
        },
{
}

/// The metadata lookup and the read that follows it check the same
/// conditions: only the length hint differs.
pub proof fn lemma_lookup_and_read_check_alike(options: GetConditions, hint: Option<u64>, read: RequestConditions, stat: RequestConditions)
    requires
        carries(read, options, hint),
        carries(stat, options, None),
    ensures
        opt_string_view(read.version) == opt_string_view(stat.version),
        opt_string_view(read.if_match) == opt_string_view(stat.if_match),
        opt_string_view(read.if_none_match) == opt_string_view(stat.if_none_match),
        read.if_modified_since == stat.if_modified_since,
        read.if_unmodified_since == stat.if_unmodified_since,
{
}

} // verus!
