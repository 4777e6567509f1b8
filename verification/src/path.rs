//! Location spelling: how a location that `object_store` names becomes the
//! key OpenDAL stores, and how a key OpenDAL lists becomes a location
//! spelled as the caller spelled the listing prefix.

use vstd::prelude::*;

use crate::error::{ErrorSource, StoreError};

verus! {

/// What `opendal::raw::percent_decode_path` returns for a path.
pub uninterp spec fn percent_decoded(path: Seq<char>) -> Seq<char>;

/// The text of the `object_store` path that `Path::from(&str)` builds from
/// a key: each segment percent-encoded where `object_store` forbids a
/// character, empty segments dropped.
pub uninterp spec fn listed_location(key: Seq<char>) -> Seq<char>;

/// What `Path::from_url_path` yields for a text: the text of the path, or
/// `None` where it fails.
pub uninterp spec fn url_path_parsed(text: Seq<char>) -> Option<Seq<char>>;

/// Calls `opendal::raw::percent_decode_path`. Its source decodes every
/// `%XX` escape and falls back to the input where the decoded bytes are not
/// UTF-8; a path without `%` therefore comes back unchanged.
#[verifier::external_body]
pub(crate) fn decode_path(path: &str) -> (decoded: String)
    ensures
        decoded@ == percent_decoded(path@),
        !path@.contains('%') ==> decoded@ == path@,
{
    opendal::raw::percent_decode_path(path)
}

/// Calls `From<&str> for object_store::path::Path` and returns the text of
/// the path.
#[verifier::external_body]
pub(crate) fn encode_listed_key(key: &str) -> (location: String)
    ensures
        location@ == listed_location(key@),
{
    String::from(object_store::path::Path::from(key))
}

/// The error `Path::from_url_path` returns for a text it cannot read.
pub uninterp spec fn url_path_error(text: Seq<char>) -> object_store::path::Error;

/// Calls `object_store::path::Path::from_url_path` and returns the text of
/// the path it builds, or its error.
#[verifier::external_body]
pub(crate) fn parse_url_path(text: &str) -> (r: Result<String, object_store::path::Error>)
    ensures
        r is Ok <==> url_path_parsed(text@) is Some,
        r matches Ok(p) ==> p@ == url_path_parsed(text@)->0,
        r matches Err(e) ==> e == url_path_error(text@),
{
    object_store::path::Path::from_url_path(text).map(String::from)
}

/// The view of an optional string.
pub open spec fn opt_view(o: Option<&str>) -> Option<Seq<char>> {
    match o {
        Some(s) => Some(s@),
        None => None,
    }
}

/// `Path::prefix_matches` on the texts of two paths, byte by byte: the
/// prefix starts the location, and either it is empty, or it is all of the
/// location, or a `/` follows it.
pub open spec fn prefix_matches_bytes(location: Seq<u8>, prefix: Seq<u8>) -> bool {
    &&& prefix.len() <= location.len()
    &&& location.take(prefix.len() as int) == prefix
    &&& (prefix.len() == 0 || location.len() == prefix.len() || location[prefix.len() as int] == 47u8)
}

/// `Path::prefix_matches` on path texts.
pub open spec fn prefix_matches(location: Seq<char>, prefix: Seq<char>) -> bool {
    prefix_matches_bytes(vstd::utf8::encode_utf8(location), vstd::utf8::encode_utf8(prefix))
}

/// The key OpenDAL stores under for a location.
pub fn raw_location(location: &str) -> (key: String)
    ensures
        key@ == percent_decoded(location@),
{
    decode_path(location)
}

/// The directory OpenDAL lists for a listing prefix: the decoded prefix
/// followed by `/`, or the root when there is no prefix.
pub fn listing_root(prefix: Option<&str>) -> (root: String)
    ensures
        root@ == match opt_view(prefix) {
            None => Seq::<char>::empty(),
            Some(p) => percent_decoded(p).push('/'),
        },
{
    match prefix {
        None => String::new(),
        Some(p) => {
            let mut root = decode_path(p);
            let slash = "/";
            proof {
                reveal_strlit("/");
            }
            root.append(slash);
            root
        },
    }
}

/// Whether the path with text `location` lies under the path with text
/// `prefix`, as `object_store::path::Path::prefix_matches` decides it.
pub fn path_prefix_matches(location: &str, prefix: &str) -> (m: bool)
    ensures
        m == prefix_matches(location@, prefix@),
{
    let l = location.as_bytes();
    let p = prefix.as_bytes();
    let plen = p.len();
    assert(l@ == vstd::utf8::encode_utf8(location@));
    assert(p@ == vstd::utf8::encode_utf8(prefix@));
    if plen > l.len() {
        return false;
    }
    let mut i: usize = 0;
    while i < plen
        invariant
            0 <= i <= plen,
            plen == p@.len(),
            plen <= l@.len(),
            l@ == vstd::utf8::encode_utf8(location@),
            p@ == vstd::utf8::encode_utf8(prefix@),
            forall|j: int| 0 <= j < i ==> l@[j] == p@[j],
        decreases plen - i,
    {
        if l[i] != p[i] {
            assert(l@.take(plen as int)[i as int] != p@[i as int]);
            return false;
        }
        i = i + 1;
    }
    assert(l@.take(plen as int) =~= p@);
    plen == 0 || plen == l.len() || l[plen] == 47u8
}

/// Whether a listed location is kept as listed: there is no prefix, or the
/// location already lies under it.
pub open spec fn keeps_spelling(location: Seq<char>, prefix: Option<Seq<char>>) -> bool {
    match prefix {
        None => true,
        Some(p) => prefix_matches(location, p),
    }
}

/// The text a listed location is reported with: the location itself where
/// it keeps its spelling, else its reading as a URL path, if it has one.
pub open spec fn normalized_text(location: Seq<char>, prefix: Option<Seq<char>>) -> Option<Seq<char>> {
    if keeps_spelling(location, prefix) {
        Some(location)
    } else {
        url_path_parsed(location)
    }
}

/// `e` is the error reported for a listed location that is no valid path:
/// a generic error of the store, whose source is the error reading the
/// location as a URL path gave.
pub open spec fn invalid_listed_path(e: StoreError, location: Seq<char>) -> bool {
    e matches StoreError::Generic { store: n, source: ErrorSource::Path(p) } && n@ == "OpendalStore"@ && p
        == url_path_error(location)
}

/// `r` is the outcome of normalizing `location` against `prefix`.
pub open spec fn normalized(r: Result<String, StoreError>, location: Seq<char>, prefix: Option<Seq<char>>) -> bool {
    match normalized_text(location, prefix) {
        Some(t) => r matches Ok(s) && s@ == t,
        None => r matches Err(e) && invalid_listed_path(e, location),
    }
}

/// Brings a location that a listing returned to the spelling of the
/// listing's prefix. A location that already lies under the prefix (or any
/// location, when there is no prefix) keeps its spelling, so that paths
/// holding literal percent escapes survive; any other one is read as a URL
/// path, which decodes its escapes.
pub fn normalize_location(location: &str, prefix: Option<&str>) -> (r: Result<String, StoreError>)
    ensures
        normalized(r, location@, opt_view(prefix)),
{
    let keep = match prefix {
        None => true,
        Some(p) => path_prefix_matches(location, p),
    };
    if keep {
        Ok(location.to_owned())
    } else {
        match parse_url_path(location) {
            Ok(parsed) => Ok(parsed),
            Err(source) => {
                let store = "OpendalStore";
                proof {
                    reveal_strlit("OpendalStore");
                }
                Err(StoreError::Generic { store, source: ErrorSource::Path(source) })
            },
        }
    }
}

/// Every path lies under itself, and every path lies under the root.
pub proof fn lemma_prefix_matches_reflexive(location: Seq<char>)
    ensures
        prefix_matches(location, location),
        prefix_matches(location, Seq::<char>::empty()),
{
    let b = vstd::utf8::encode_utf8(location);
    assert(b.take(b.len() as int) =~= b);
    assert(vstd::utf8::encode_utf8(Seq::<char>::empty()) =~= Seq::<u8>::empty());
    assert(b.take(0) =~= Seq::<u8>::empty());
}

/// A listed location is kept verbatim whenever the listing has no prefix
/// or the location lies under it; in particular a location equal to the
/// prefix is kept.
pub proof fn lemma_matching_location_kept(r: Result<String, StoreError>, location: Seq<char>, prefix: Option<Seq<char>>)
    requires
        normalized(r, location, prefix),
        prefix is None || prefix == Some(location) || prefix_matches(location, prefix->0),
    ensures
        r matches Ok(s) && s@ == location,
{
    lemma_prefix_matches_reflexive(location);
}

/// A listed location keeps its spelling exactly when the listing has no
/// prefix or the location lies under the prefix; otherwise it is reported
/// as its reading as a URL path, or as an invalid path where it has none.
pub proof fn lemma_normalize_cases(r: Result<String, StoreError>, location: Seq<char>, prefix: Option<Seq<char>>)
    requires
        normalized(r, location, prefix),
    ensures
        (prefix is None || prefix_matches(location, prefix->0)) ==> (r matches Ok(s) && s@ == location),
        (prefix is Some && !prefix_matches(location, prefix->0) && url_path_parsed(location) is Some) ==> (r matches Ok(
            s,
        ) && s@ == url_path_parsed(location)->0),
        (prefix is Some && !prefix_matches(location, prefix->0) && url_path_parsed(location) is None) ==> (r matches Err(
            StoreError::Generic { store: n, source: ErrorSource::Path(p) },
        ) && n@ == "OpendalStore"@ && p == url_path_error(location)),
        r is Err ==> (prefix is Some && !prefix_matches(location, prefix->0)),
{
}

/// Strict byte-wise lexicographic order: `a` comes after `b`. This is the
/// order of `str`, and so of `object_store` paths, which compare by their
/// text.
pub open spec fn bytes_after(a: Seq<u8>, b: Seq<u8>) -> bool
    decreases a.len(),
{
    if a.len() == 0 {
        false
    } else if b.len() == 0 {
        true
    } else if a[0] != b[0] {
        a[0] > b[0]
    } else {
        bytes_after(a.drop_first(), b.drop_first())
    }
}

/// The location `a` comes after the location `b`.
pub open spec fn location_after(a: Seq<char>, b: Seq<char>) -> bool {
    bytes_after(vstd::utf8::encode_utf8(a), vstd::utf8::encode_utf8(b))
}

/// Whether a listed location comes after the listing's offset, which is
/// the filter a listing from an offset applies where the backend cannot
/// start after a key itself.
pub fn is_after_offset(location: &str, offset: &str) -> (after: bool)
    ensures
        after == location_after(location@, offset@),
{
    let a = location.as_bytes();
    let b = offset.as_bytes();
    let alen = a.len();
    let blen = b.len();
    let mut i: usize = 0;
    assert(a@.skip(0) =~= a@);
    assert(b@.skip(0) =~= b@);
    while i < alen && i < blen && a[i] == b[i]
        invariant
            0 <= i <= alen,
            i <= blen,
            alen == a@.len(),
            blen == b@.len(),
            bytes_after(a@, b@) == bytes_after(a@.skip(i as int), b@.skip(i as int)),
        decreases alen - i,
    {
        assert(a@.skip(i as int).drop_first() =~= a@.skip(i + 1));
        assert(b@.skip(i as int).drop_first() =~= b@.skip(i + 1));
        i = i + 1;
    }
    if i == alen {
        false
    } else if i == blen {
        true
    } else {
        a[i] > b[i]
    }
}

/// Nothing comes after itself.
pub proof fn lemma_after_irreflexive(a: Seq<u8>)
    ensures
        !bytes_after(a, a),
    decreases a.len(),
{
    if a.len() > 0 {
        lemma_after_irreflexive(a.drop_first());
    }
}

/// Of two byte strings, at most one comes after the other.
pub proof fn lemma_after_asymmetric(a: Seq<u8>, b: Seq<u8>)
    ensures
        !(bytes_after(a, b) && bytes_after(b, a)),
    decreases a.len(),
{
    if a.len() > 0 && b.len() > 0 && a[0] == b[0] {
        lemma_after_asymmetric(a.drop_first(), b.drop_first());
    }
}

/// Coming after is transitive.
pub proof fn lemma_after_transitive(a: Seq<u8>, b: Seq<u8>, c: Seq<u8>)
    requires
        bytes_after(a, b),
        bytes_after(b, c),
    ensures
        bytes_after(a, c),
    decreases a.len(),
{
    if a.len() > 0 && b.len() > 0 && c.len() > 0 && a[0] == b[0] && b[0] == c[0] {
        lemma_after_transitive(a.drop_first(), b.drop_first(), c.drop_first());
    }
}

/// Of two different byte strings, one comes after the other.
pub proof fn lemma_after_total(a: Seq<u8>, b: Seq<u8>)
    requires
        a != b,
    ensures
        bytes_after(a, b) || bytes_after(b, a),
    decreases a.len(),
{
    if a.len() > 0 && b.len() > 0 && a[0] == b[0] {
        if a.drop_first() == b.drop_first() {
            assert(a =~= seq![a[0]] + a.drop_first());
            assert(b =~= seq![b[0]] + b.drop_first());
        }
        lemma_after_total(a.drop_first(), b.drop_first());
    } else if a.len() == 0 && b.len() == 0 {
        assert(a =~= b);
    }
}

/// The order of locations is byte-wise lexicographic: at the first byte
/// where two byte strings differ, the one whose byte is the greater number
/// comes after the other.
pub proof fn lemma_after_at_first_difference(a: Seq<u8>, b: Seq<u8>, i: int)
    requires
        0 <= i < a.len(),
        i < b.len(),
        a.take(i) == b.take(i),
        a[i] != b[i],
    ensures
        bytes_after(a, b) <==> a[i] > b[i],
    decreases i,
{
    if i > 0 {
        assert(a.take(i)[0] == a[0]);
        assert(b.take(i)[0] == b[0]);
        assert(a[0] == b[0]);
        assert(a.drop_first().take(i - 1) =~= a.take(i).drop_first());
        assert(b.drop_first().take(i - 1) =~= b.take(i).drop_first());
        assert(a.drop_first()[i - 1] == a[i]);
        assert(b.drop_first()[i - 1] == b[i]);
        lemma_after_at_first_difference(a.drop_first(), b.drop_first(), i - 1);
        assert(bytes_after(a, b) == bytes_after(a.drop_first(), b.drop_first()));
    }
}

/// A byte string comes after each of its proper prefixes, and never before
/// one.
pub proof fn lemma_after_proper_prefix(a: Seq<u8>, b: Seq<u8>)
    requires
        b.len() < a.len(),
        a.take(b.len() as int) == b,
    ensures
        bytes_after(a, b),
        !bytes_after(b, a),
    decreases b.len(),
{
    if b.len() > 0 {
        assert(a.take(b.len() as int)[0] == a[0]);
        assert(a[0] == b[0]);
        assert(a.drop_first().take(b.len() - 1) =~= b.drop_first());
        lemma_after_proper_prefix(a.drop_first(), b.drop_first());
        assert(bytes_after(a, b) == bytes_after(a.drop_first(), b.drop_first()));
        assert(bytes_after(b, a) == bytes_after(b.drop_first(), a.drop_first()));
    }
}

/// A location comes after the offset of a listing exactly when, at the
/// first byte of their texts where they differ, the location's byte is the
/// greater number, or when the offset's text is a proper prefix of the
/// location's.
pub proof fn lemma_offset_order_is_bytewise(location: Seq<char>, offset: Seq<char>, i: int)
    ensures
        ({
            let l = vstd::utf8::encode_utf8(location);
            let o = vstd::utf8::encode_utf8(offset);
            &&& (0 <= i < l.len() && i < o.len() && l.take(i) == o.take(i) && l[i] != o[i]) ==> (
            location_after(location, offset) <==> l[i] > o[i])
            &&& (o.len() < l.len() && l.take(o.len() as int) == o) ==> location_after(location, offset)
            &&& (l.len() < o.len() && o.take(l.len() as int) == l) ==> !location_after(location, offset)
        }),
{
    let l = vstd::utf8::encode_utf8(location);
    let o = vstd::utf8::encode_utf8(offset);
    if 0 <= i < l.len() && i < o.len() && l.take(i) == o.take(i) && l[i] != o[i] {
        lemma_after_at_first_difference(l, o, i);
    }
    if o.len() < l.len() && l.take(o.len() as int) == o {
        lemma_after_proper_prefix(l, o);
    }
    if l.len() < o.len() && o.take(l.len() as int) == l {
        lemma_after_proper_prefix(o, l);
    }
}

/// A path lies under a non-empty prefix exactly when the prefix's text
/// starts it and is followed by `/` or by nothing: a text that continues
/// the prefix's last segment does not lie under it.
pub proof fn lemma_prefix_matches_by_segment(location: Seq<u8>, prefix: Seq<u8>, rest: Seq<u8>, c: u8)
    requires
        prefix.len() > 0,
    ensures
        prefix_matches_bytes(prefix, prefix),
        prefix_matches_bytes(prefix + seq![47u8] + rest, prefix),
        c != 47u8 ==> !prefix_matches_bytes(prefix + seq![c] + rest, prefix),
        location.len() < prefix.len() ==> !prefix_matches_bytes(location, prefix),
{
    let l1 = prefix + seq![47u8] + rest;
    let l2 = prefix + seq![c] + rest;
    assert(prefix.take(prefix.len() as int) =~= prefix);
    assert(l1.take(prefix.len() as int) =~= prefix);
    assert(l1[prefix.len() as int] == 47u8);
    assert(l2[prefix.len() as int] == c);
}

/// A listing from an offset never returns the offset itself, and of two
/// distinct locations exactly one passes the other's offset filter.
pub proof fn lemma_offset_filter_strict(a: Seq<char>, b: Seq<char>)
    ensures
        !location_after(a, a),
        a != b ==> (location_after(a, b) != location_after(b, a)),
{
    let ea = vstd::utf8::encode_utf8(a);
    let eb = vstd::utf8::encode_utf8(b);
    lemma_after_irreflexive(ea);
    lemma_after_asymmetric(ea, eb);
    if a != b {
        broadcast use vstd::utf8::encode_utf8_decode_utf8;
        assert(vstd::utf8::decode_utf8(ea) == a);
        assert(vstd::utf8::decode_utf8(eb) == b);
        lemma_after_total(ea, eb);
    }
}

} // verus!
