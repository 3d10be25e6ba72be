//! Index-range resolution for slicing a sampled series.
//!
//! A slice request arrives as a pair of endpoint descriptions (unbounded,
//! included, or excluded); the resolver turns them into a concrete
//! half-open element range clamped to the series length, or reports that
//! the request selects nothing.

use vstd::prelude::*;

verus! {

/// One endpoint of an element-index range.
#[derive(Debug, Clone, Copy, PartialEq, Eq, Structural)]
pub enum IndexBound {
    /// No constraint on this side.
    Unbounded,
    /// The index itself is part of the range.
    Included(usize),
    /// The index itself is left out of the range.
    Excluded(usize),
}

/// The resolved inclusive start of the range, clamped to `len`.
pub open spec fn spec_resolved_start(b: IndexBound, len: int) -> int {
    let raw: int = match b {
        IndexBound::Unbounded => 0,
        IndexBound::Included(i) => i as int,
        IndexBound::Excluded(i) => i + 1,
    };
    if raw <= len {
        raw
    } else {
        len
    }
}

/// The resolved exclusive end of the range, clamped to `len`.
pub open spec fn spec_resolved_end(b: IndexBound, len: int) -> int {
    let raw: int = match b {
        IndexBound::Unbounded => len,
        IndexBound::Included(i) => i + 1,
        IndexBound::Excluded(i) => i as int,
    };
    if raw <= len {
        raw
    } else {
        len
    }
}

/// Resolve an element-index range over a series of `len` samples.
/// Included and excluded endpoints are honoured, the result is clamped to
/// `[0, len]`, and a request that selects nothing comes back as `None`.
pub fn resolve_slice_range(start: IndexBound, end: IndexBound, len: usize) -> (r: Option<
    (usize, usize),
>)
    ensures
        (r is Some) == (spec_resolved_start(start, len as int) < spec_resolved_end(
            end,
            len as int,
        )),
        r matches Some(p) ==> p.0 == spec_resolved_start(start, len as int) && p.1
            == spec_resolved_end(end, len as int) && p.0 < p.1 <= len,
{
    let s: usize = match start {
        IndexBound::Unbounded => 0,
        IndexBound::Included(i) => if i <= len {
            i
        } else {
            len
        },
        IndexBound::Excluded(i) => if i < len {
            i + 1
        } else {
            len
        },
    };
    let e: usize = match end {
        IndexBound::Unbounded => len,
        IndexBound::Included(i) => if i < len {
            i + 1
        } else {
            len
        },
        IndexBound::Excluded(i) => if i <= len {
            i
        } else {
            len
        },
    };
    if e <= s {
        None
    } else {
        Some((s, e))
    }
}

} // verus!
