//! Byte ranges of reads: which bytes of an object a read returns, and how
//! a read is carried out once the object's size is known.

use vstd::prelude::*;

use std::ops::Range;

verus! {

/// The bytes a read asks for, as `object_store::GetRange` spells them.
#[derive(Clone, Copy, Debug, PartialEq, Eq, Structural)]
pub enum GetRange {
    /// The bytes from the first offset up to (excluding) the second.
    Bounded(u64, u64),
    /// The bytes from an offset to the end of the object.
    Offset(u64),
    /// The last bytes of the object, this many of them.
    Suffix(u64),
}

/// The requested range itself.
pub open spec fn owned(range: Option<&GetRange>) -> Option<GetRange> {
    match range {
        Some(g) => Some(*g),
        None => None,
    }
}

/// The bytes `(start, end)` of an object of `size` bytes that a read of
/// `range` returns.
pub open spec fn read_range(range: Option<GetRange>, size: u64) -> (u64, u64) {
    match range {
        Some(GetRange::Bounded(start, end)) => if start >= end || start >= size {
            (0, 0)
        } else if end < size {
            (start, end)
        } else {
            (start, size)
        },
        Some(GetRange::Offset(offset)) => if offset < size {
            (offset, size)
        } else {
            (0, 0)
        },
        Some(GetRange::Suffix(suffix)) => if suffix < size {
            ((size - suffix) as u64, size)
        } else {
            (0, size)
        },
        None => (0, size),
    }
}

/// The byte range of an object of `size` bytes that a read of `range`
/// returns. A bounded range that is empty or starts past the end yields no
/// bytes, one that runs past the end is cut at the end; an offset past the
/// end yields no bytes; a suffix longer than the object yields all of it.
pub fn format_read_range(range: Option<&GetRange>, size: u64) -> (r: Range<u64>)
    ensures
        (r.start, r.end) == read_range(owned(range), size),
        r.start <= r.end <= size,
        range is None ==> r.start == 0 && r.end == size,
        range matches Some(GetRange::Suffix(n)) ==> r.end == size && r.end - r.start == if *n < size {
            *n
        } else {
            size
        },
        range matches Some(GetRange::Offset(o)) ==> (r.start < r.end <==> *o < size),
        range matches Some(GetRange::Bounded(s, e)) ==> (r.start < r.end <==> (*s < *e && *s < size)),
        range matches Some(GetRange::Bounded(s, e)) ==> (r.start < r.end ==> r.start == *s && r.end == if *e
            < size {
            *e
        } else {
            size
        }),
        range matches Some(GetRange::Offset(o)) ==> (r.start < r.end ==> r.start == *o && r.end == size),
{
    match range {
        Some(GetRange::Bounded(start, end)) => {
            if *start >= *end || *start >= size {
                0..0
            } else if *end < size {
                *start..*end
            } else {
                *start..size
            }
        },
        Some(GetRange::Offset(offset)) => {
            if *offset < size {
                *offset..size
            } else {
                0..0
            }
        },
        Some(GetRange::Suffix(suffix)) => {
            if *suffix < size {
                (size - *suffix)..size
            } else {
                0..size
            }
        },
        None => 0..size,
    }
}

/// How a read proceeds once the object's size is known.
#[derive(Debug)]
pub enum ReadPlan {
    /// Answer with these (empty) bounds and no body.
    NoBody(Range<u64>),
    /// Read the bytes in these bounds with a new request.
    Fetch(Range<u64>),
    /// The stream already opened delivers exactly the bytes in these bounds.
    KeepStream(Range<u64>),
}

/// The bounds a plan answers with.
pub open spec fn plan_bounds(plan: ReadPlan) -> (u64, u64) {
    match plan {
        ReadPlan::NoBody(r) => (r.start, r.end),
        ReadPlan::Fetch(r) => (r.start, r.end),
        ReadPlan::KeepStream(r) => (r.start, r.end),
    }
}

/// The bytes that the request opened before the size was known asks for,
/// on an object of `size` bytes.
pub open spec fn requested_bytes(range: Option<GetRange>, size: u64) -> (int, int) {
    match range {
        Some(GetRange::Bounded(start, end)) => (start as int, end as int),
        Some(GetRange::Offset(offset)) => (offset as int, size as int),
        Some(GetRange::Suffix(suffix)) => if suffix < size {
            (size - suffix, size as int)
        } else {
            (0, size as int)
        },
        None => (0, size as int),
    }
}

/// The bounds `(start, end)` as a range.
pub open spec fn as_range(bounds: (u64, u64)) -> Range<u64> {
    Range { start: bounds.0, end: bounds.1 }
}

/// The plan of a read that opened its stream before it knew the size.
pub open spec fn plan_without_stat(range: Option<GetRange>, size: u64) -> ReadPlan {
    let bounds = read_range(range, size);
    if bounds.0 >= bounds.1 {
        ReadPlan::NoBody(as_range(bounds))
    } else if range matches Some(GetRange::Bounded(_, e)) && e > size {
        ReadPlan::Fetch(as_range(bounds))
    } else {
        ReadPlan::KeepStream(as_range(bounds))
    }
}

/// The plan of a read that looked up the metadata first.
pub open spec fn plan_with_stat(head: bool, range: Option<GetRange>, size: u64) -> ReadPlan {
    let bounds = read_range(range, size);
    if head {
        ReadPlan::NoBody(as_range((0, 0)))
    } else if bounds.0 >= bounds.1 {
        ReadPlan::NoBody(as_range(bounds))
    } else {
        ReadPlan::Fetch(as_range(bounds))
    }
}

/// A read that opened its stream before it knew the object's size, now
/// that the size is known: an empty range answers with no body; a bounded
/// range that runs past the end is read again with the cut bounds; any
/// other range keeps the stream already opened.
pub fn plan_read_without_stat(range: Option<&GetRange>, size: u64) -> (plan: ReadPlan)
    ensures
        plan == plan_without_stat(owned(range), size),
        plan_bounds(plan) == read_range(owned(range), size),
        plan is NoBody <==> plan_bounds(plan).0 >= plan_bounds(plan).1,
        plan is Fetch <==> (plan_bounds(plan).0 < plan_bounds(plan).1 && (range matches Some(
            GetRange::Bounded(_, e),
        ) && *e > size)),
        plan is KeepStream ==> (plan_bounds(plan).0 as int, plan_bounds(plan).1 as int)
            == requested_bytes(owned(range), size),
{
    let bounds = format_read_range(range, size);
    if bounds.start >= bounds.end {
        return ReadPlan::NoBody(bounds);
    }
    match range {
        Some(GetRange::Bounded(_, end)) => {
            if *end > size {
                ReadPlan::Fetch(bounds)
            } else {
                ReadPlan::KeepStream(bounds)
            }
        },
        _ => ReadPlan::KeepStream(bounds),
    }
}

/// A read that looked up the object's metadata first: a head request
/// answers with no body and empty bounds; an empty range answers with no
/// body; any other range is read.
pub fn plan_read_with_stat(head: bool, range: Option<&GetRange>, size: u64) -> (plan: ReadPlan)
    ensures
        plan == plan_with_stat(head, owned(range), size),
        head ==> plan_bounds(plan) == (0u64, 0u64) && plan is NoBody,
        !head ==> plan_bounds(plan) == read_range(owned(range), size),
        !head ==> (plan is NoBody <==> plan_bounds(plan).0 >= plan_bounds(plan).1),
        !(plan is KeepStream),
{
    if head {
        return ReadPlan::NoBody(0..0);
    }
    let bounds = format_read_range(range, size);
    if bounds.start >= bounds.end {
        ReadPlan::NoBody(bounds)
    } else {
        ReadPlan::Fetch(bounds)
    }
}

/// The bytes a read asks OpenDAL for before it knows the object's size.
#[derive(Clone, Copy, Debug, PartialEq, Eq, Structural)]
pub enum ReadSpan {
    /// From the first offset up to (excluding) the second.
    Between(u64, u64),
    /// From an offset to the end.
    From(u64),
    /// The last bytes, this many of them.
    Last(u64),
    /// The whole object.
    All,
}

/// The request a read opens before it knows the object's size: exactly
/// the range it was asked for.
pub fn initial_read_span(range: Option<&GetRange>) -> (span: ReadSpan)
    ensures
        span == match owned(range) {
            Some(GetRange::Bounded(start, end)) => ReadSpan::Between(start, end),
            Some(GetRange::Offset(offset)) => ReadSpan::From(offset),
            Some(GetRange::Suffix(suffix)) => ReadSpan::Last(suffix),
            None => ReadSpan::All,
        },
{
    match range {
        Some(GetRange::Bounded(start, end)) => ReadSpan::Between(*start, *end),
        Some(GetRange::Offset(offset)) => ReadSpan::From(*offset),
        Some(GetRange::Suffix(suffix)) => ReadSpan::Last(*suffix),
        None => ReadSpan::All,
    }
}

/// How a read starts.
#[derive(Clone, Copy, Debug, PartialEq, Eq, Structural)]
pub enum ReadStart {
    /// Look the object's metadata up first.
    WithStat,
    /// Open the read directly and learn the size from its stream.
    WithoutStat,
}

/// A head request looks the metadata up; any other read opens its stream
/// directly (and is retried with the lookup when the backend cannot serve
/// it that way, see `retries_with_stat`).
pub fn first_read_start(head: bool) -> (s: ReadStart)
    ensures
        s == if head {
            ReadStart::WithStat
        } else {
            ReadStart::WithoutStat
        },
{
    if head {
        ReadStart::WithStat
    } else {
        ReadStart::WithoutStat
    }
}

/// Both ways of reading answer a read that is not a head request with the
/// same bounds, either both return a body or neither does, and the bounds
/// never leave the object.
pub proof fn lemma_read_paths_agree(range: Option<GetRange>, size: u64)
    ensures
        plan_bounds(plan_without_stat(range, size)) == plan_bounds(plan_with_stat(false, range, size)),
        plan_without_stat(range, size) is NoBody <==> plan_with_stat(false, range, size) is NoBody,
        plan_bounds(plan_without_stat(range, size)).0 <= plan_bounds(plan_without_stat(range, size)).1 <= size,
{
}

} // verus!
