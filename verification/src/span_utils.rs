//! Projection of data-space intervals to screen-space spans.
//!
//! A finite interval end projects through the viewport transform; an
//! unbounded end falls to the corresponding edge of the screen frame.  The
//! projected pair is re-ordered after projection, so a transform that flips
//! an axis still yields an ordered `(min, max)` span.

use vstd::prelude::*;
use crate::bound::{Bound, Interval};
use crate::transform::PlotTransform;

verus! {

/// The unordered screen pair of a Y interval: finite ends project through
/// the transform; the unbounded start falls to the bottom and the unbounded
/// end to the top edge of the frame (screen Y grows downward).
pub open spec fn spec_screen_y_raw(i: Interval, tf: PlotTransform) -> (int, int) {
    (
        match i.start {
            Bound::Finite { value, .. } => tf.spec_project_y(value as int),
            _ => tf.frame.bottom as int,
        },
        match i.end {
            Bound::Finite { value, .. } => tf.spec_project_y(value as int),
            _ => tf.frame.top as int,
        },
    )
}

/// The unordered screen pair of an X interval: finite ends project through
/// the transform; the unbounded start falls to the left and the unbounded
/// end to the right edge of the frame.
pub open spec fn spec_screen_x_raw(i: Interval, tf: PlotTransform) -> (int, int) {
    (
        match i.start {
            Bound::Finite { value, .. } => tf.spec_project_x(value as int),
            _ => tf.frame.left as int,
        },
        match i.end {
            Bound::Finite { value, .. } => tf.spec_project_x(value as int),
            _ => tf.frame.right as int,
        },
    )
}

/// Convert a Y interval in data space to an ordered screen-space vertical
/// span `(min, max)`; ordering happens after projection.
pub fn interval_to_screen_y(interval: &Interval, tf: &PlotTransform) -> (r: (i64, i64))
    requires
        interval.start matches Bound::Finite { value, .. } ==> tf.spec_can_project_y(
            value as int,
        ),
        interval.end matches Bound::Finite { value, .. } ==> tf.spec_can_project_y(value as int),
    ensures
        r.0 <= r.1,
        ({
            let (y0, y1) = spec_screen_y_raw(*interval, *tf);
            r.0 == if y0 <= y1 {
                y0
            } else {
                y1
            } && r.1 == if y0 <= y1 {
                y1
            } else {
                y0
            }
        }),
{
    let y0: i64 = match interval.start {
        Bound::Finite { value, .. } => tf.project_y(value),
        _ => tf.frame.bottom,
    };
    let y1: i64 = match interval.end {
        Bound::Finite { value, .. } => tf.project_y(value),
        _ => tf.frame.top,
    };
    if y0 <= y1 {
        (y0, y1)
    } else {
        (y1, y0)
    }
}

/// Convert an X interval in data space to an ordered screen-space
/// horizontal span `(min, max)`; ordering happens after projection.
pub fn interval_to_screen_x(interval: &Interval, tf: &PlotTransform) -> (r: (i64, i64))
    requires
        interval.start matches Bound::Finite { value, .. } ==> tf.spec_can_project_x(
            value as int,
        ),
        interval.end matches Bound::Finite { value, .. } ==> tf.spec_can_project_x(value as int),
    ensures
        r.0 <= r.1,
        ({
            let (x0, x1) = spec_screen_x_raw(*interval, *tf);
            r.0 == if x0 <= x1 {
                x0
            } else {
                x1
            } && r.1 == if x0 <= x1 {
                x1
            } else {
                x0
            }
        }),
{
    let x0: i64 = match interval.start {
        Bound::Finite { value, .. } => tf.project_x(value),
        _ => tf.frame.left,
    };
    let x1: i64 = match interval.end {
        Bound::Finite { value, .. } => tf.project_x(value),
        _ => tf.frame.right,
    };
    if x0 <= x1 {
        (x0, x1)
    } else {
        (x1, x0)
    }
}

} // verus!
