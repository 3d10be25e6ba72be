//! Interval algebra over possibly-unbounded, possibly-open endpoints.
//!
//! A coordinate on the data plane is modelled by [`Scalar`]: a finite value,
//! one of the two infinities, or an invalid (not-a-number) value.  An
//! interval endpoint is a [`Bound`]: unbounded on its side, or a finite value
//! tagged closed (included) or open (excluded).  All comparisons go through
//! the endpoint ordering key (sign class, value, closedness at equal values).

use vstd::prelude::*;

verus! {

/// A coordinate probe on the extended data line: finite, one of the two
/// infinities, or not a number.  Only finite probes can lie inside an
/// interval.
#[derive(Clone, Copy, Debug, PartialEq, Eq, Structural)]
pub enum Scalar {
    /// Negative infinity.
    NegInf,
    /// A finite coordinate.
    Finite(i64),
    /// Positive infinity.
    PosInf,
    /// An invalid coordinate; contained in no interval.
    NaN,
}

impl Scalar {
    /// True iff the probe is a finite value.
    pub fn is_finite(&self) -> (r: bool)
        ensures
            r == (self is Finite),
    {
        matches!(self, Scalar::Finite(_))
    }
}

/// One endpoint of an [`Interval`]: unbounded on its side, or a finite value
/// that is either included (closed) or excluded (open).
#[derive(Clone, Copy, Debug, PartialEq, Eq, Structural)]
pub enum Bound {
    /// The endpoint is unbounded below.
    NegInf,
    /// A finite endpoint; `closed` tells whether the value itself belongs to
    /// the interval.
    Finite { value: i64, closed: bool },
    /// The endpoint is unbounded above.
    PosInf,
}

/// Does `b`, read as a start (lower) endpoint, admit the finite coordinate
/// `x`?
pub open spec fn start_admits(b: Bound, x: int) -> bool {
    match b {
        Bound::NegInf => true,
        Bound::Finite { value, closed } => if closed { value <= x } else { value < x },
        Bound::PosInf => false,
    }
}

/// Does `b`, read as an end (upper) endpoint, admit the finite coordinate
/// `x`?
pub open spec fn end_admits(b: Bound, x: int) -> bool {
    match b {
        Bound::NegInf => false,
        Bound::Finite { value, closed } => if closed { x <= value } else { x < value },
        Bound::PosInf => true,
    }
}

/// The endpoint ordering key, read on the start side: sign class first, then
/// the finite value, and at equal values the closed endpoint precedes the
/// open one (a closed start admits more than an open start at the same
/// value).  `start_le(a, b)` means `a` admits every coordinate `b` admits.
pub open spec fn start_le(a: Bound, b: Bound) -> bool {
    match (a, b) {
        (Bound::NegInf, _) => true,
        (_, Bound::PosInf) => true,
        (Bound::PosInf, _) => false,
        (_, Bound::NegInf) => false,
        (Bound::Finite { value: va, closed: ca }, Bound::Finite { value: vb, closed: cb }) => {
            va < vb || (va == vb && (ca || !cb))
        },
    }
}

/// The endpoint ordering key, read on the end side: sign class first, then
/// the finite value, and at equal values the open endpoint precedes the
/// closed one (a closed end admits more than an open end at the same value).
/// `end_le(a, b)` means `b` admits every coordinate `a` admits.
pub open spec fn end_le(a: Bound, b: Bound) -> bool {
    match (a, b) {
        (Bound::NegInf, _) => true,
        (_, Bound::PosInf) => true,
        (Bound::PosInf, _) => false,
        (_, Bound::NegInf) => false,
        (Bound::Finite { value: va, closed: ca }, Bound::Finite { value: vb, closed: cb }) => {
            va < vb || (va == vb && (cb || !ca))
        },
    }
}

/// A numeric range on the data plane with possibly-unbounded,
/// possibly-open endpoints.
#[derive(Clone, Copy, Debug, PartialEq, Eq, Structural)]
pub struct Interval {
    /// Lower endpoint.
    pub start: Bound,
    /// Upper endpoint.
    pub end: Bound,
}

impl Interval {
    /// Normalised form: the endpoints swapped when the start lies above the
    /// end under the start-side ordering key.
    pub open spec fn spec_normalize(self) -> Interval {
        if start_le(self.start, self.end) {
            self
        } else {
            Interval { start: self.end, end: self.start }
        }
    }

    /// Structural emptiness: the interval admits no coordinate because one
    /// side is unbounded the wrong way, the endpoints are inverted, or the
    /// interval collapses to a single point that is not closed on both
    /// sides.
    pub open spec fn spec_is_empty(self) -> bool {
        match (self.start, self.end) {
            (Bound::PosInf, _) => true,
            (_, Bound::NegInf) => true,
            (Bound::Finite { value: va, closed: ca }, Bound::Finite { value: vb, closed: cb }) => {
                va > vb || (va == vb && !(ca && cb))
            },
            _ => false,
        }
    }

    /// Containment: only a finite probe can be inside, and it must be
    /// admitted by both endpoints.
    pub open spec fn spec_contains(self, x: Scalar) -> bool {
        match x {
            Scalar::Finite(v) => start_admits(self.start, v as int) && end_admits(
                self.end,
                v as int,
            ),
            _ => false,
        }
    }

    /// Create an interval from two endpoints, swapping them if they arrive
    /// in the wrong order under the endpoint ordering key.
    pub fn new(a: Bound, b: Bound) -> (r: Interval)
        ensures
            r == (Interval { start: a, end: b }).spec_normalize(),
    {
        if bound_start_le(&a, &b) {
            Interval { start: a, end: b }
        } else {
            Interval { start: b, end: a }
        }
    }

    /// The closed interval `[a, b]` (swapped when `a > b`).
    pub fn closed(a: i64, b: i64) -> (r: Interval)
        ensures
            r == (Interval {
                start: Bound::Finite { value: a, closed: true },
                end: Bound::Finite { value: b, closed: true },
            }).spec_normalize(),
    {
        Interval::new(
            Bound::Finite { value: a, closed: true },
            Bound::Finite { value: b, closed: true },
        )
    }

    /// The open interval `(a, b)` (swapped when `a > b`).
    pub fn open(a: i64, b: i64) -> (r: Interval)
        ensures
            r == (Interval {
                start: Bound::Finite { value: a, closed: false },
                end: Bound::Finite { value: b, closed: false },
            }).spec_normalize(),
    {
        Interval::new(
            Bound::Finite { value: a, closed: false },
            Bound::Finite { value: b, closed: false },
        )
    }

    /// The interval `(-inf, b]`.
    pub fn below(b: i64) -> (r: Interval)
        ensures
            r == (Interval { start: Bound::NegInf, end: Bound::Finite { value: b, closed: true } }),
    {
        Interval::new(Bound::NegInf, Bound::Finite { value: b, closed: true })
    }

    /// The interval `[a, +inf)`.
    pub fn above(a: i64) -> (r: Interval)
        ensures
            r == (Interval { start: Bound::Finite { value: a, closed: true }, end: Bound::PosInf }),
    {
        Interval::new(Bound::Finite { value: a, closed: true }, Bound::PosInf)
    }

    /// The interval `(-inf, +inf)`.
    pub fn all() -> (r: Interval)
        ensures
            r == (Interval { start: Bound::NegInf, end: Bound::PosInf }),
    {
        Interval::new(Bound::NegInf, Bound::PosInf)
    }

    /// Adapter for the older closed-range shape: a pair of optional finite
    /// closed endpoints, where `None` stands for the corresponding
    /// unbounded side.
    pub fn from_closed_endpoints(lo: Option<i64>, hi: Option<i64>) -> (r: Interval)
        ensures
            r == (Interval {
                start: match lo {
                    Some(v) => Bound::Finite { value: v, closed: true },
                    None => Bound::NegInf,
                },
                end: match hi {
                    Some(v) => Bound::Finite { value: v, closed: true },
                    None => Bound::PosInf,
                },
            }).spec_normalize(),
    {
        let start = match lo {
            Some(v) => Bound::Finite { value: v, closed: true },
            None => Bound::NegInf,
        };
        let end = match hi {
            Some(v) => Bound::Finite { value: v, closed: true },
            None => Bound::PosInf,
        };
        Interval::new(start, end)
    }

    /// True iff the interval admits no coordinate.
    pub fn is_empty(&self) -> (r: bool)
        ensures
            r == self.spec_is_empty(),
    {
        match (self.start, self.end) {
            (Bound::PosInf, _) => true,
            (_, Bound::NegInf) => true,
            (
                Bound::Finite { value: va, closed: ca },
                Bound::Finite { value: vb, closed: cb },
            ) => va > vb || (va == vb && !(ca && cb)),
            _ => false,
        }
    }

    /// True iff the finite probe `x` lies inside the interval; always false
    /// for a non-finite probe, whatever the interval's shape.
    pub fn contains(&self, x: Scalar) -> (r: bool)
        ensures
            r == self.spec_contains(x),
            !(x is Finite) ==> r == false,
    {
        match x {
            Scalar::Finite(v) => {
                let start_ok = match self.start {
                    Bound::NegInf => true,
                    Bound::Finite { value, closed } => if closed {
                        value <= v
                    } else {
                        value < v
                    },
                    Bound::PosInf => false,
                };
                let end_ok = match self.end {
                    Bound::NegInf => false,
                    Bound::Finite { value, closed } => if closed {
                        v <= value
                    } else {
                        v < value
                    },
                    Bound::PosInf => true,
                };
                start_ok && end_ok
            },
            _ => false,
        }
    }
}

impl Interval {
    /// The later of two start endpoints under the start-side ordering key:
    /// the one that admits fewer coordinates.
    pub open spec fn spec_start_max(a: Bound, b: Bound) -> Bound {
        if start_le(a, b) {
            b
        } else {
            a
        }
    }

    /// The earlier of two end endpoints under the end-side ordering key:
    /// the one that admits fewer coordinates.
    pub open spec fn spec_end_min(a: Bound, b: Bound) -> Bound {
        if end_le(a, b) {
            a
        } else {
            b
        }
    }

    /// Intersection: normalise both operands, keep the ordering-key-maximal
    /// start and the ordering-key-minimal end, and signal emptiness instead
    /// of returning an empty interval.
    pub open spec fn spec_intersect(self, other: Interval) -> Option<Interval> {
        let a = self.spec_normalize();
        let b = other.spec_normalize();
        let r = Interval {
            start: Interval::spec_start_max(a.start, b.start),
            end: Interval::spec_end_min(a.end, b.end),
        };
        if r.spec_is_empty() {
            None
        } else {
            Some(r)
        }
    }

    /// Intersect two intervals; `None` signals an empty result.  The
    /// operation is total: it never fails, it only reports emptiness.
    pub fn intersect(&self, other: &Interval) -> (r: Option<Interval>)
        ensures
            r == self.spec_intersect(*other),
            r matches Some(i) ==> !i.spec_is_empty(),
    {
        let a = Interval::new(self.start, self.end);
        let b = Interval::new(other.start, other.end);
        let start = if bound_start_le(&a.start, &b.start) {
            b.start
        } else {
            a.start
        };
        let end = if bound_end_le(&a.end, &b.end) {
            a.end
        } else {
            b.end
        };
        let r = Interval { start, end };
        if r.is_empty() {
            None
        } else {
            Some(r)
        }
    }
}

/// A non-empty interval is already normalised: inverted or point-collapsed
/// endpoint pairs are all flagged empty.
pub proof fn lemma_nonempty_is_normalized(i: Interval)
    requires
        !i.spec_is_empty(),
    ensures
        i.spec_normalize() == i,
{
}

/// Intersection is exact: a probe lies in the intersection of two
/// normalised intervals iff it lies in both.
pub proof fn lemma_intersect_contains(a: Interval, b: Interval, x: Scalar)
    requires
        a.spec_normalize() == a,
        b.spec_normalize() == b,
    ensures
        match a.spec_intersect(b) {
            Some(i) => i.spec_contains(x) == (a.spec_contains(x) && b.spec_contains(x)),
            None => !(a.spec_contains(x) && b.spec_contains(x)),
        },
{
    let r = Interval {
        start: Interval::spec_start_max(a.start, b.start),
        end: Interval::spec_end_min(a.end, b.end),
    };
    if let Scalar::Finite(v) = x {
        assert(start_admits(r.start, v as int) == (start_admits(a.start, v as int)
            && start_admits(b.start, v as int)));
        assert(end_admits(r.end, v as int) == (end_admits(a.end, v as int) && end_admits(
            b.end,
            v as int,
        )));
    }
    if r.spec_is_empty() {
        lemma_empty_contains_nothing(r, x);
    }
}

/// An empty interval contains nothing: emptiness is consistent with
/// containment returning false for every probe.
pub proof fn lemma_empty_contains_nothing(i: Interval, x: Scalar)
    requires
        i.spec_is_empty(),
    ensures
        !i.spec_contains(x),
{
}

/// Intersecting a non-empty interval with itself gives the interval back.
pub proof fn lemma_intersect_self(i: Interval)
    requires
        !i.spec_is_empty(),
    ensures
        i.spec_intersect(i) == Some(i),
{
    lemma_nonempty_is_normalized(i);
}

/// A closed interval contains both of its endpoints; an open interval over
/// the same finite endpoints contains neither.
pub proof fn lemma_endpoint_containment(a: i64, b: i64)
    requires
        a <= b,
    ensures
        (Interval {
            start: Bound::Finite { value: a, closed: true },
            end: Bound::Finite { value: b, closed: true },
        }).spec_contains(Scalar::Finite(a)),
        (Interval {
            start: Bound::Finite { value: a, closed: true },
            end: Bound::Finite { value: b, closed: true },
        }).spec_contains(Scalar::Finite(b)),
        !(Interval {
            start: Bound::Finite { value: a, closed: false },
            end: Bound::Finite { value: b, closed: false },
        }).spec_contains(Scalar::Finite(a)),
        !(Interval {
            start: Bound::Finite { value: a, closed: false },
            end: Bound::Finite { value: b, closed: false },
        }).spec_contains(Scalar::Finite(b)),
{
}

/// A non-finite probe lies in no interval, whatever the interval's shape.
pub proof fn lemma_non_finite_outside(i: Interval, x: Scalar)
    requires
        !(x is Finite),
    ensures
        !i.spec_contains(x),
{
}

/// Exec mirror of [`start_le`].
fn bound_start_le(a: &Bound, b: &Bound) -> (r: bool)
    ensures
        r == start_le(*a, *b),
{
    match (a, b) {
        (Bound::NegInf, _) => true,
        (_, Bound::PosInf) => true,
        (Bound::PosInf, _) => false,
        (_, Bound::NegInf) => false,
        (Bound::Finite { value: va, closed: ca }, Bound::Finite { value: vb, closed: cb }) => {
            *va < *vb || (*va == *vb && (*ca || !*cb))
        },
    }
}

/// Exec mirror of [`end_le`].
fn bound_end_le(a: &Bound, b: &Bound) -> (r: bool)
    ensures
        r == end_le(*a, *b),
{
    match (a, b) {
        (Bound::NegInf, _) => true,
        (_, Bound::PosInf) => true,
        (Bound::PosInf, _) => false,
        (_, Bound::NegInf) => false,
        (Bound::Finite { value: va, closed: ca }, Bound::Finite { value: vb, closed: cb }) => {
            *va < *vb || (*va == *vb && (*cb || !*ca))
        },
    }
}

} // verus!
