//! Viewport bounds and the data-to-screen transform model.
//!
//! [`PlotBounds`] is the rectangular visible region of the data plane:
//! independent min/max per axis, each possibly infinite.  Mutations keep
//! non-finite fields fixed, so a region that is unbounded on one side stays
//! so under translation and zoom.  [`PlotTransform`] is an exact affine
//! data-to-screen projection per axis together with the screen frame; a
//! negative scale flips the axis on screen.

use vstd::prelude::*;
use crate::bound::Scalar;

verus! {

/// A point on the data plane.
#[derive(Clone, Copy, Debug, PartialEq, Eq, Structural)]
pub struct PlotPoint {
    /// Horizontal data coordinate.
    pub x: i64,
    /// Vertical data coordinate.
    pub y: i64,
}

/// A translation delta on the data plane.
#[derive(Clone, Copy, Debug, PartialEq, Eq, Structural)]
pub struct PlotVec {
    /// Horizontal component.
    pub x: i64,
    /// Vertical component.
    pub y: i64,
}

/// One axis's zoom factor as an exact positive rational `num / den`.  A
/// factor greater than one shrinks the visible extent ("zoom in").
#[derive(Clone, Copy, Debug, PartialEq, Eq, Structural)]
pub struct ZoomFactor {
    /// Numerator; must be positive.
    pub num: u32,
    /// Denominator; must be positive.
    pub den: u32,
}

impl ZoomFactor {
    /// Well-formedness: both parts positive.
    pub open spec fn wf(self) -> bool {
        self.num > 0 && self.den > 0
    }
}

/// A per-axis pair of zoom factors.
#[derive(Clone, Copy, Debug, PartialEq, Eq, Structural)]
pub struct ZoomFactors {
    /// Factor applied to the X axis.
    pub x: ZoomFactor,
    /// Factor applied to the Y axis.
    pub y: ZoomFactor,
}

impl ZoomFactors {
    /// Well-formedness: both factors well-formed.
    pub open spec fn wf(self) -> bool {
        self.x.wf() && self.y.wf()
    }
}

/// Division truncating toward zero (the exec behaviour of `/` on signed
/// machine integers), for a positive divisor.
pub open spec fn tdiv(a: int, b: int) -> int {
    if a >= 0 {
        a / b
    } else {
        -((-a) / b)
    }
}

/// `s` shifted by `d`: a finite value moves, the infinities and the invalid
/// value stay where they are.
pub open spec fn scalar_shifted(s: Scalar, d: int) -> Scalar {
    match s {
        Scalar::Finite(v) => Scalar::Finite((v + d) as i64),
        _ => s,
    }
}

/// The shift keeps a finite value inside the machine range.
pub open spec fn scalar_can_shift(s: Scalar, d: int) -> bool {
    s matches Scalar::Finite(v) ==> i64::MIN <= v + d <= i64::MAX
}

/// `s` scaled toward the pivot `c` by the factor `f`: a finite value `v`
/// becomes `c + (v - c) * den / num` (division truncating toward zero); the
/// infinities and the invalid value stay where they are.
pub open spec fn scalar_zoomed(s: Scalar, c: int, f: ZoomFactor) -> Scalar {
    match s {
        Scalar::Finite(v) => Scalar::Finite(
            (c + tdiv((v - c) * (f.den as int), f.num as int)) as i64,
        ),
        _ => s,
    }
}

/// The zoomed value of a finite coordinate stays inside the machine range.
pub open spec fn scalar_can_zoom(s: Scalar, c: int, f: ZoomFactor) -> bool {
    s matches Scalar::Finite(v) ==> i64::MIN <= c + tdiv(
        (v - c) * (f.den as int),
        f.num as int,
    ) <= i64::MAX
}

/// The smaller of a possibly-non-finite value and a finite probe, as the
/// floating-point minimum would order them: the invalid value loses against
/// any finite probe.
pub open spec fn scalar_min_with(s: Scalar, v: i64) -> Scalar {
    match s {
        Scalar::NegInf => Scalar::NegInf,
        Scalar::Finite(u) => if u <= v {
            Scalar::Finite(u)
        } else {
            Scalar::Finite(v)
        },
        Scalar::PosInf => Scalar::Finite(v),
        Scalar::NaN => Scalar::Finite(v),
    }
}

/// The larger of a possibly-non-finite value and a finite probe; the
/// invalid value loses against any finite probe.
pub open spec fn scalar_max_with(s: Scalar, v: i64) -> Scalar {
    match s {
        Scalar::NegInf => Scalar::Finite(v),
        Scalar::Finite(u) => if u >= v {
            Scalar::Finite(u)
        } else {
            Scalar::Finite(v)
        },
        Scalar::PosInf => Scalar::PosInf,
        Scalar::NaN => Scalar::Finite(v),
    }
}

/// The rectangular visible region of the data plane: independent min/max
/// per axis, each possibly infinite.  The canonical empty region has the
/// mins at positive and the maxes at negative infinity, so that extending
/// it with any finite point gives that point back.
#[derive(Clone, Copy, Debug, PartialEq, Eq, Structural)]
pub struct PlotBounds {
    /// Lower edge of the X axis.
    pub min_x: Scalar,
    /// Upper edge of the X axis.
    pub max_x: Scalar,
    /// Lower edge of the Y axis.
    pub min_y: Scalar,
    /// Upper edge of the Y axis.
    pub max_y: Scalar,
}

impl PlotBounds {
    /// The canonical empty region: mins at positive, maxes at negative
    /// infinity.
    pub open spec fn spec_nothing() -> PlotBounds {
        PlotBounds {
            min_x: Scalar::PosInf,
            max_x: Scalar::NegInf,
            min_y: Scalar::PosInf,
            max_y: Scalar::NegInf,
        }
    }

    /// The X axis replaced by the closed range `[a, b]` as given (no
    /// swapping), other fields untouched.
    pub open spec fn spec_with_x_range(self, a: i64, b: i64) -> PlotBounds {
        PlotBounds { min_x: Scalar::Finite(a), max_x: Scalar::Finite(b), ..self }
    }

    /// The Y axis replaced by the closed range `[a, b]` as given, other
    /// fields untouched.
    pub open spec fn spec_with_y_range(self, a: i64, b: i64) -> PlotBounds {
        PlotBounds { min_y: Scalar::Finite(a), max_y: Scalar::Finite(b), ..self }
    }

    /// All four edges shifted by the delta; non-finite edges stay put.
    pub open spec fn spec_translated(self, dx: int, dy: int) -> PlotBounds {
        PlotBounds {
            min_x: scalar_shifted(self.min_x, dx),
            max_x: scalar_shifted(self.max_x, dx),
            min_y: scalar_shifted(self.min_y, dy),
            max_y: scalar_shifted(self.max_y, dy),
        }
    }

    /// The translation keeps every finite edge inside the machine range.
    pub open spec fn spec_can_translate(self, dx: int, dy: int) -> bool {
        &&& scalar_can_shift(self.min_x, dx)
        &&& scalar_can_shift(self.max_x, dx)
        &&& scalar_can_shift(self.min_y, dy)
        &&& scalar_can_shift(self.max_y, dy)
    }

    /// All four edges scaled toward the pivot; non-finite edges stay put.
    /// A factor above one moves finite edges toward the pivot, shrinking
    /// the visible extent, and leaves the pivot itself fixed.
    pub open spec fn spec_zoomed(self, factor: ZoomFactors, center: PlotPoint) -> PlotBounds {
        PlotBounds {
            min_x: scalar_zoomed(self.min_x, center.x as int, factor.x),
            max_x: scalar_zoomed(self.max_x, center.x as int, factor.x),
            min_y: scalar_zoomed(self.min_y, center.y as int, factor.y),
            max_y: scalar_zoomed(self.max_y, center.y as int, factor.y),
        }
    }

    /// The zoom keeps every finite edge inside the machine range.
    pub open spec fn spec_can_zoom(self, factor: ZoomFactors, center: PlotPoint) -> bool {
        &&& scalar_can_zoom(self.min_x, center.x as int, factor.x)
        &&& scalar_can_zoom(self.max_x, center.x as int, factor.x)
        &&& scalar_can_zoom(self.min_y, center.y as int, factor.y)
        &&& scalar_can_zoom(self.max_y, center.y as int, factor.y)
    }

    /// The region grown to include the finite X coordinate `v`.
    pub open spec fn spec_extended_with_x(self, v: i64) -> PlotBounds {
        PlotBounds {
            min_x: scalar_min_with(self.min_x, v),
            max_x: scalar_max_with(self.max_x, v),
            ..self
        }
    }

    /// The region grown to include the finite Y coordinate `v`.
    pub open spec fn spec_extended_with_y(self, v: i64) -> PlotBounds {
        PlotBounds {
            min_y: scalar_min_with(self.min_y, v),
            max_y: scalar_max_with(self.max_y, v),
            ..self
        }
    }

    /// The canonical empty region.
    pub fn nothing() -> (r: PlotBounds)
        ensures
            r == PlotBounds::spec_nothing(),
    {
        PlotBounds {
            min_x: Scalar::PosInf,
            max_x: Scalar::NegInf,
            min_y: Scalar::PosInf,
            max_y: Scalar::NegInf,
        }
    }

    /// Grow the region to include the finite X coordinate `v`.
    pub fn extend_with_x(&mut self, v: i64)
        ensures
            *final(self) == old(self).spec_extended_with_x(v),
    {
        self.min_x = scalar_min_exec(self.min_x, v);
        self.max_x = scalar_max_exec(self.max_x, v);
    }

    /// Grow the region to include the finite Y coordinate `v`.
    pub fn extend_with_y(&mut self, v: i64)
        ensures
            *final(self) == old(self).spec_extended_with_y(v),
    {
        self.min_y = scalar_min_exec(self.min_y, v);
        self.max_y = scalar_max_exec(self.max_y, v);
    }
}

/// Exec mirror of [`scalar_min_with`].
fn scalar_min_exec(s: Scalar, v: i64) -> (r: Scalar)
    ensures
        r == scalar_min_with(s, v),
{
    match s {
        Scalar::NegInf => Scalar::NegInf,
        Scalar::Finite(u) => if u <= v {
            Scalar::Finite(u)
        } else {
            Scalar::Finite(v)
        },
        Scalar::PosInf => Scalar::Finite(v),
        Scalar::NaN => Scalar::Finite(v),
    }
}

/// Exec mirror of [`scalar_max_with`].
fn scalar_max_exec(s: Scalar, v: i64) -> (r: Scalar)
    ensures
        r == scalar_max_with(s, v),
{
    match s {
        Scalar::NegInf => Scalar::Finite(v),
        Scalar::Finite(u) => if u >= v {
            Scalar::Finite(u)
        } else {
            Scalar::Finite(v)
        },
        Scalar::PosInf => Scalar::PosInf,
        Scalar::NaN => Scalar::Finite(v),
    }
}

/// Shift one edge by a delta; see [`scalar_shifted`].
pub fn shift_scalar(s: Scalar, d: i64) -> (r: Scalar)
    requires
        scalar_can_shift(s, d as int),
    ensures
        r == scalar_shifted(s, d as int),
{
    match s {
        Scalar::Finite(v) => Scalar::Finite(v + d),
        _ => s,
    }
}

/// Two in-range shifts compose into one by the summed delta.
pub proof fn lemma_shift_compose(s: Scalar, d1: int, d2: int)
    requires
        scalar_can_shift(s, d1),
        scalar_can_shift(scalar_shifted(s, d1), d2),
    ensures
        scalar_shifted(scalar_shifted(s, d1), d2) == scalar_shifted(s, d1 + d2),
        scalar_can_shift(s, d1 + d2),
{
}

/// Two in-range translations compose into one by the summed delta.
pub proof fn lemma_translate_compose(b: PlotBounds, d1x: int, d1y: int, d2x: int, d2y: int)
    requires
        b.spec_can_translate(d1x, d1y),
        b.spec_translated(d1x, d1y).spec_can_translate(d2x, d2y),
    ensures
        b.spec_translated(d1x, d1y).spec_translated(d2x, d2y) == b.spec_translated(
            d1x + d2x,
            d1y + d2y,
        ),
        b.spec_can_translate(d1x + d2x, d1y + d2y),
{
    lemma_shift_compose(b.min_x, d1x, d2x);
    lemma_shift_compose(b.max_x, d1x, d2x);
    lemma_shift_compose(b.min_y, d1y, d2y);
    lemma_shift_compose(b.max_y, d1y, d2y);
}

/// Zooming leaves the pivot itself fixed, whatever the factor.
pub proof fn lemma_zoom_pivot_fixed(v: i64, f: ZoomFactor)
    requires
        f.wf(),
    ensures
        scalar_zoomed(Scalar::Finite(v), v as int, f) == Scalar::Finite(v),
{
    let num = f.num as int;
    vstd::arithmetic::div_mod::lemma_div_multiples_vanish(0, num);
    assert(num * 0 == 0);
    assert(tdiv((v - v) * (f.den as int), num) == 0);
}

/// A zoom-in factor (numerator at least the denominator) moves a finite
/// edge toward the pivot and never past it: the zoomed value lies between
/// the pivot and the edge, so such a zoom always stays inside the machine
/// range.
pub proof fn lemma_zoom_in_bounded(v: i64, c: i64, f: ZoomFactor)
    requires
        f.wf(),
        f.num >= f.den,
    ensures
        ({
            let w = c + tdiv((v - c) * (f.den as int), f.num as int);
            &&& (c <= v ==> c <= w <= v)
            &&& (v <= c ==> v <= w <= c)
            &&& scalar_can_zoom(Scalar::Finite(v), c as int, f)
            &&& scalar_zoomed(Scalar::Finite(v), c as int, f) == Scalar::Finite(w as i64)
        }),
{
    let den = f.den as int;
    let num = f.num as int;
    let d = v - c;
    if d >= 0 {
        assert(0 * den == 0);
        vstd::arithmetic::mul::lemma_mul_inequality(0, d, den);
        vstd::arithmetic::div_mod::lemma_div_pos_is_pos(d * den, num);
        vstd::arithmetic::mul::lemma_mul_inequality(den, num, d);
        vstd::arithmetic::div_mod::lemma_div_is_ordered(d * den, d * num, num);
        vstd::arithmetic::div_mod::lemma_div_multiples_vanish(d, num);
        assert(num * d == d * num);
        assert(0 <= tdiv(d * den, num) <= d);
    } else {
        let e = -d;
        vstd::arithmetic::mul::lemma_mul_strict_inequality(d, 0, den);
        assert(0 * den == 0);
        assert(d * den < 0);
        vstd::arithmetic::mul::lemma_mul_inequality(0, e, den);
        vstd::arithmetic::div_mod::lemma_div_pos_is_pos(e * den, num);
        vstd::arithmetic::mul::lemma_mul_inequality(den, num, e);
        vstd::arithmetic::div_mod::lemma_div_is_ordered(e * den, e * num, num);
        vstd::arithmetic::div_mod::lemma_div_multiples_vanish(e, num);
        assert(num * e == e * num);
        assert(0 <= (e * den) / num <= e);
        vstd::arithmetic::mul::lemma_mul_unary_negation(d, den);
        assert(e * den == -(d * den));
        assert(tdiv(d * den, num) == -((e * den) / num));
        assert(-e <= tdiv(d * den, num) <= 0);
    }
}

/// A zoom whose factor is at least one on both axes is applicable to any
/// bounds: every finite edge lands between the pivot and its old
/// position, so no edge can leave the machine range.
pub proof fn lemma_zoom_in_always_applicable(b: PlotBounds, factor: ZoomFactors, center: PlotPoint)
    requires
        factor.wf(),
        factor.x.num >= factor.x.den,
        factor.y.num >= factor.y.den,
    ensures
        b.spec_can_zoom(factor, center),
{
    if let Scalar::Finite(v) = b.min_x {
        lemma_zoom_in_bounded(v, center.x, factor.x);
    }
    if let Scalar::Finite(v) = b.max_x {
        lemma_zoom_in_bounded(v, center.x, factor.x);
    }
    if let Scalar::Finite(v) = b.min_y {
        lemma_zoom_in_bounded(v, center.y, factor.y);
    }
    if let Scalar::Finite(v) = b.max_y {
        lemma_zoom_in_bounded(v, center.y, factor.y);
    }
}

/// Decide whether shifting `s` by `d` stays inside the machine range; see
/// [`scalar_can_shift`].
pub fn can_shift_scalar(s: &Scalar, d: i64) -> (r: bool)
    ensures
        r == scalar_can_shift(*s, d as int),
{
    match s {
        Scalar::Finite(v) => v.checked_add(d).is_some(),
        _ => true,
    }
}

/// Decide whether scaling `s` toward the pivot `c` by `f` stays inside the
/// machine range; see [`scalar_can_zoom`].
pub fn can_zoom_scalar(s: &Scalar, c: i64, f: ZoomFactor) -> (r: bool)
    requires
        f.wf(),
    ensures
        r == scalar_can_zoom(*s, c as int, f),
{
    match s {
        Scalar::Finite(v) => {
            let v = *v;
            let d: i128 = v as i128 - c as i128;
            proof {
                assert((v - c) * (f.den as int) < 0x2000000000000000000000000
                    && (v - c) * (f.den as int) > -0x2000000000000000000000000) by (nonlinear_arith)
                    requires
                        -0x20000000000000000 < v - c < 0x20000000000000000,
                        0 < f.den < 0x100000000,
                ;
            }
            let m: i128 = d * f.den as i128;
            let q: i128 = if m >= 0 {
                ((m as u128) / (f.num as u128)) as i128
            } else {
                -((((-m) as u128) / (f.num as u128)) as i128)
            };
            let t: i128 = c as i128 + q;
            i64::MIN as i128 <= t && t <= i64::MAX as i128
        },
        _ => true,
    }
}

/// The screen-space frame of the plot area, in screen units.  Screen Y
/// grows downward, so the top edge is the smaller Y value.
#[derive(Clone, Copy, Debug, PartialEq, Eq, Structural)]
pub struct ScreenRect {
    /// Smallest screen X of the frame.
    pub left: i64,
    /// Largest screen X of the frame.
    pub right: i64,
    /// Smallest screen Y of the frame.
    pub top: i64,
    /// Largest screen Y of the frame.
    pub bottom: i64,
}

/// The data-to-screen projection: an exact affine map per axis together
/// with the screen frame.  A negative scale flips the axis on screen (the
/// usual case for Y, where screen coordinates grow downward).
#[derive(Clone, Copy, Debug, PartialEq, Eq, Structural)]
pub struct PlotTransform {
    /// The screen frame of the plot area.
    pub frame: ScreenRect,
    /// Screen units per data unit on the X axis.
    pub x_scale: i64,
    /// Screen X of data X zero.
    pub x_offset: i64,
    /// Screen units per data unit on the Y axis (negative when flipped).
    pub y_scale: i64,
    /// Screen Y of data Y zero.
    pub y_offset: i64,
}

impl PlotTransform {
    /// Screen X of the data coordinate `v`.
    pub open spec fn spec_project_x(self, v: int) -> int {
        self.x_scale * v + self.x_offset
    }

    /// Screen Y of the data coordinate `v`.
    pub open spec fn spec_project_y(self, v: int) -> int {
        self.y_scale * v + self.y_offset
    }

    /// The projected X stays inside the machine range.
    pub open spec fn spec_can_project_x(self, v: int) -> bool {
        i64::MIN <= self.spec_project_x(v) <= i64::MAX
    }

    /// The projected Y stays inside the machine range.
    pub open spec fn spec_can_project_y(self, v: int) -> bool {
        i64::MIN <= self.spec_project_y(v) <= i64::MAX
    }

    /// Project a data X coordinate to screen space.
    pub fn project_x(&self, v: i64) -> (r: i64)
        requires
            self.spec_can_project_x(v as int),
        ensures
            r == self.spec_project_x(v as int),
    {
        proof {
            lemma_affine_fits(self.x_scale as int, v as int);
        }
        let m: i128 = self.x_scale as i128 * v as i128;
        (m + self.x_offset as i128) as i64
    }

    /// Project a data Y coordinate to screen space.
    pub fn project_y(&self, v: i64) -> (r: i64)
        requires
            self.spec_can_project_y(v as int),
        ensures
            r == self.spec_project_y(v as int),
    {
        proof {
            lemma_affine_fits(self.y_scale as int, v as int);
        }
        let m: i128 = self.y_scale as i128 * v as i128;
        (m + self.y_offset as i128) as i64
    }

    /// Project a data point to a screen `(x, y)` pair.
    pub fn position_from_point(&self, p: &PlotPoint) -> (r: (i64, i64))
        requires
            self.spec_can_project_x(p.x as int),
            self.spec_can_project_y(p.y as int),
        ensures
            r.0 == self.spec_project_x(p.x as int),
            r.1 == self.spec_project_y(p.y as int),
    {
        (self.project_x(p.x), self.project_y(p.y))
    }
}

/// The product of two machine-word coordinates fits the wide intermediate
/// type used by the projection.
proof fn lemma_affine_fits(a: int, b: int)
    requires
        i64::MIN <= a <= i64::MAX,
        i64::MIN <= b <= i64::MAX,
    ensures
        -0x40000000000000000000000000000000 <= a * b <= 0x40000000000000000000000000000000,
{
    assert(-0x40000000000000000000000000000000 <= a * b
        <= 0x40000000000000000000000000000000) by (nonlinear_arith)
        requires
            -0x8000000000000000 <= a <= 0x7fffffffffffffff,
            -0x8000000000000000 <= b <= 0x7fffffffffffffff,
    ;
}

/// Scale one edge toward the pivot `c` by the factor `f`; see
/// [`scalar_zoomed`].
pub fn zoom_scalar(s: Scalar, c: i64, f: ZoomFactor) -> (r: Scalar)
    requires
        f.wf(),
        scalar_can_zoom(s, c as int, f),
    ensures
        r == scalar_zoomed(s, c as int, f),
{
    match s {
        Scalar::Finite(v) => {
            let d: i128 = v as i128 - c as i128;
            proof {
                assert((v - c) * (f.den as int) < 0x2000000000000000000000000
                    && (v - c) * (f.den as int) > -0x2000000000000000000000000) by (nonlinear_arith)
                    requires
                        -0x20000000000000000 < v - c < 0x20000000000000000,
                        0 < f.den < 0x100000000,
                ;
            }
            let m: i128 = d * f.den as i128;
            assert(m == (v - c) * (f.den as int));
            let q: i128 = if m >= 0 {
                ((m as u128) / (f.num as u128)) as i128
            } else {
                -((((-m) as u128) / (f.num as u128)) as i128)
            };
            assert(q == tdiv((v - c) * (f.den as int), f.num as int));
            let r: i128 = c as i128 + q;
            Scalar::Finite(r as i64)
        },
        _ => s,
    }
}

} // verus!
