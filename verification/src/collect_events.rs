//! The per-frame reducer and its laws.
//!
//! [`ActionExecutor::apply`] drains the queue once, in FIFO order over the
//! whole queue: bounds and auto-bounds fields are updated immediately as
//! each action is met, items and overlays are appended to their output
//! lists immediately, and axis-scoped bounds sets echo an event.  The spec
//! functions here fold a sequence of actions into the exact final state the
//! reducer must produce.

use vstd::prelude::*;
use crate::action::{
    ActionExecutor, ActionQueue, AppliedActions, AxisFlags, AxisRange, BoundsChangeCause,
    BoundsLike, PlotAction, PlotEvent,
};
use crate::bound::Scalar;
use crate::transform::{PlotBounds, PlotVec};

verus! {

/// The bounds value one action leaves behind; non-bounds actions leave the
/// bounds untouched.
pub open spec fn step_bounds<I>(b: PlotBounds, a: PlotAction<I>) -> PlotBounds {
    match a {
        PlotAction::SetBoundsX(r) => b.spec_with_x_range(r.start, r.end),
        PlotAction::SetBoundsY(r) => b.spec_with_y_range(r.start, r.end),
        PlotAction::Translate(d) => b.spec_translated(d.x as int, d.y as int),
        PlotAction::Zoom(f, c) => b.spec_zoomed(f, c),
        _ => b,
    }
}

/// Whether one action's bounds mutation stays inside the machine range.
pub open spec fn step_ok<I>(b: PlotBounds, a: PlotAction<I>) -> bool {
    match a {
        PlotAction::Translate(d) => b.spec_can_translate(d.x as int, d.y as int),
        PlotAction::Zoom(f, c) => f.wf() && b.spec_can_zoom(f, c),
        _ => true,
    }
}

/// The bounds after folding the whole action sequence, in order, from `b`.
pub open spec fn bounds_after<I>(s: Seq<PlotAction<I>>, b: PlotBounds) -> PlotBounds
    decreases s.len(),
{
    if s.len() == 0 {
        b
    } else {
        step_bounds(bounds_after(s.drop_last(), b), s.last())
    }
}

/// Every step of the fold stays inside the machine range.
pub open spec fn actions_applicable<I>(s: Seq<PlotAction<I>>, b: PlotBounds) -> bool
    decreases s.len(),
{
    if s.len() == 0 {
        true
    } else {
        actions_applicable(s.drop_last(), b) && step_ok(bounds_after(s.drop_last(), b), s.last())
    }
}

/// The auto-bounds flags one action leaves behind: an axis-scoped set
/// disables its own axis only, translate and zoom disable both, and
/// set-auto-bounds overwrites both unconditionally.
pub open spec fn step_flags<I>(f: AxisFlags, a: PlotAction<I>) -> AxisFlags {
    match a {
        PlotAction::SetBoundsX(_) => AxisFlags { x: false, y: f.y },
        PlotAction::SetBoundsY(_) => AxisFlags { x: f.x, y: false },
        PlotAction::Translate(_) => AxisFlags { x: false, y: false },
        PlotAction::Zoom(_, _) => AxisFlags { x: false, y: false },
        PlotAction::SetAutoBounds(v) => v,
        _ => f,
    }
}

/// The auto-bounds flags after folding the whole action sequence.
pub open spec fn flags_after<I>(s: Seq<PlotAction<I>>, f: AxisFlags) -> AxisFlags
    decreases s.len(),
{
    if s.len() == 0 {
        f
    } else {
        step_flags(flags_after(s.drop_last(), f), s.last())
    }
}

/// The items of the add-item actions, in submission order.
pub open spec fn items_of<I>(s: Seq<PlotAction<I>>) -> Seq<I>
    decreases s.len(),
{
    if s.len() == 0 {
        Seq::empty()
    } else {
        items_of(s.drop_last()) + (match s.last() {
            PlotAction::AddItem(item) => seq![item],
            _ => Seq::empty(),
        })
    }
}

/// The overlay shapes of the add-overlay actions, in submission order.
pub open spec fn overlays_of<I>(s: Seq<PlotAction<I>>) -> Seq<egui::Shape>
    decreases s.len(),
{
    if s.len() == 0 {
        Seq::empty()
    } else {
        overlays_of(s.drop_last()) + (match s.last() {
            PlotAction::AddOverlayShape(shape) => seq![shape],
            _ => Seq::empty(),
        })
    }
}

/// The event one action echoes into the log: an axis-scoped bounds set
/// echoes a programmatic bounds change whose "old" side is the canonical
/// empty value and whose "new" side spans the set axis with the other axis
/// left unbounded; every other action echoes nothing.
pub open spec fn event_for<I>(a: PlotAction<I>) -> Option<PlotEvent> {
    match a {
        PlotAction::SetBoundsX(r) => Some(
            PlotEvent::BoundsChanged {
                old: PlotBounds::spec_nothing(),
                new: PlotBounds {
                    min_x: Scalar::Finite(r.start),
                    max_x: Scalar::Finite(r.end),
                    min_y: Scalar::NegInf,
                    max_y: Scalar::PosInf,
                },
                cause: BoundsChangeCause::Programmatic,
            },
        ),
        PlotAction::SetBoundsY(r) => Some(
            PlotEvent::BoundsChanged {
                old: PlotBounds::spec_nothing(),
                new: PlotBounds {
                    min_x: Scalar::NegInf,
                    max_x: Scalar::PosInf,
                    min_y: Scalar::Finite(r.start),
                    max_y: Scalar::Finite(r.end),
                },
                cause: BoundsChangeCause::Programmatic,
            },
        ),
        _ => None,
    }
}

/// The events the reducer itself emits for the whole sequence, in order.
pub open spec fn events_of<I>(s: Seq<PlotAction<I>>) -> Seq<PlotEvent>
    decreases s.len(),
{
    if s.len() == 0 {
        Seq::empty()
    } else {
        events_of(s.drop_last()) + (match event_for(s.last()) {
            Some(e) => seq![e],
            None => Seq::empty(),
        })
    }
}

/// From whole-sequence applicability, extract that the step at position
/// `i` is in range for the state the prefix before it produces.
proof fn lemma_applicable_at<I>(s: Seq<PlotAction<I>>, b: PlotBounds, i: int)
    requires
        actions_applicable(s, b),
        0 <= i < s.len(),
    ensures
        step_ok(bounds_after(s.subrange(0, i), b), s[i]),
    decreases s.len(),
{
    if i == s.len() - 1 {
        assert(s.drop_last() =~= s.subrange(0, i));
    } else {
        lemma_applicable_at(s.drop_last(), b, i);
        assert(s.drop_last().subrange(0, i) =~= s.subrange(0, i));
    }
}

/// Decide whether one action's bounds mutation stays inside the machine
/// range for the given bounds; see [`step_ok`].
fn step_in_range<I>(b: &PlotBounds, a: &PlotAction<I>) -> (r: bool)
    ensures
        r == step_ok(*b, *a),
{
    match a {
        PlotAction::Translate(d) => {
            crate::transform::can_shift_scalar(&b.min_x, d.x)
                && crate::transform::can_shift_scalar(&b.max_x, d.x)
                && crate::transform::can_shift_scalar(&b.min_y, d.y)
                && crate::transform::can_shift_scalar(&b.max_y, d.y)
        },
        PlotAction::Zoom(f, c) => {
            f.x.num > 0 && f.x.den > 0 && f.y.num > 0 && f.y.den > 0
                && crate::transform::can_zoom_scalar(&b.min_x, c.x, f.x)
                && crate::transform::can_zoom_scalar(&b.max_x, c.x, f.x)
                && crate::transform::can_zoom_scalar(&b.min_y, c.y, f.y)
                && crate::transform::can_zoom_scalar(&b.max_y, c.y, f.y)
        },
        _ => true,
    }
}

/// Decide, before a reduction, whether every step of draining `queue` from
/// `bounds` stays inside the machine range: exactly the precondition of
/// [`ActionExecutor::apply`] for a caller that starts from a concrete
/// [`PlotBounds`] value.
pub fn queue_applicable<I>(queue: &ActionQueue<I>, bounds: &PlotBounds) -> (r: bool)
    ensures
        r == actions_applicable(queue@, *bounds),
{
    let ghost q: Seq<PlotAction<I>> = queue@;
    let actions = queue.iter();
    let mut b: PlotBounds = *bounds;
    let n = actions.len();
    for i in 0..n
        invariant
            q == queue@,
            n == q.len(),
            actions@ == q,
            actions_applicable(q.subrange(0, i as int), *bounds),
            b == bounds_after(q.subrange(0, i as int), *bounds),
        decreases n - i,
    {
        proof {
            assert(q.subrange(0, i + 1).drop_last() =~= q.subrange(0, i as int));
            assert(q.subrange(0, i + 1).last() == q[i as int]);
        }
        let a = &actions[i];
        if !step_in_range(&b, a) {
            proof {
                if actions_applicable(q, *bounds) {
                    lemma_applicable_at(q, *bounds, i as int);
                }
            }
            return false;
        }
        match a {
            PlotAction::SetBoundsX(r) => {
                b.set_x_range(*r);
            },
            PlotAction::SetBoundsY(r) => {
                b.set_y_range(*r);
            },
            PlotAction::Translate(d) => {
                b.translate(d.x, d.y);
            },
            PlotAction::Zoom(f, c) => {
                b.zoom(*f, *c);
            },
            _ => {},
        }
    }
    proof {
        assert(q.subrange(0, q.len() as int) =~= q);
    }
    true
}

/// The single frame-end summary the host appends: a bounds-changed event
/// with the given cause exactly when the final bounds differ from the
/// frame-start bounds, and nothing otherwise.
pub fn frame_summary_event(
    start_bounds: &PlotBounds,
    end_bounds: &PlotBounds,
    cause: BoundsChangeCause,
) -> (r: Option<PlotEvent>)
    ensures
        r == if start_bounds == end_bounds {
            None::<PlotEvent>
        } else {
            Some(
                PlotEvent::BoundsChanged { old: *start_bounds, new: *end_bounds, cause },
            )
        },
{
    if start_bounds == end_bounds {
        None
    } else {
        Some(PlotEvent::BoundsChanged { old: *start_bounds, new: *end_bounds, cause })
    }
}

impl<I> PlotAction<I> {
    /// The event this action echoes into the log, if any.
    pub fn as_event(&self) -> (r: Option<PlotEvent>)
        ensures
            r == event_for(*self),
    {
        match self {
            PlotAction::SetBoundsX(range) => Some(
                PlotEvent::BoundsChanged {
                    old: PlotBounds::nothing(),
                    new: PlotBounds {
                        min_x: Scalar::Finite(range.start),
                        max_x: Scalar::Finite(range.end),
                        min_y: Scalar::NegInf,
                        max_y: Scalar::PosInf,
                    },
                    cause: BoundsChangeCause::Programmatic,
                },
            ),
            PlotAction::SetBoundsY(range) => Some(
                PlotEvent::BoundsChanged {
                    old: PlotBounds::nothing(),
                    new: PlotBounds {
                        min_x: Scalar::NegInf,
                        max_x: Scalar::PosInf,
                        min_y: Scalar::Finite(range.start),
                        max_y: Scalar::Finite(range.end),
                    },
                    cause: BoundsChangeCause::Programmatic,
                },
            ),
            _ => None,
        }
    }
}

impl ActionExecutor {
    /// Drain the queue and apply every action in FIFO order over the whole
    /// queue.  Axis-scoped sets disable auto-bounds on their own axis;
    /// translate and zoom disable both axes; set-auto-bounds overwrites
    /// both flags; items and overlays are collected in submission order;
    /// axis-scoped sets echo a programmatic bounds-changed event.  Auto-fit
    /// is not performed here.
    pub fn apply<I, B: BoundsLike>(
        queue: ActionQueue<I>,
        bounds: B,
        auto_bounds: AxisFlags,
        _last_transform: Option<()>,
        _response: Option<&egui::Response>,
    ) -> (r: AppliedActions<I, B>)
        requires
            actions_applicable(queue@, bounds.model()),
        ensures
            r.bounds.model() == bounds_after(queue@, bounds.model()),
            r.auto_bounds == flags_after(queue@, auto_bounds),
            r.items@ == items_of(queue@),
            r.overlays@ == overlays_of(queue@),
            r.events@ == events_of(queue@),
    {
        let ghost q: Seq<PlotAction<I>> = queue@;
        let ghost b0: PlotBounds = bounds.model();
        let mut bounds = bounds;
        let mut auto = auto_bounds;
        let mut items: Vec<I> = Vec::new();
        let mut overlays: Vec<egui::Shape> = Vec::new();
        let mut events: Vec<PlotEvent> = Vec::new();
        let mut actions = queue.drain();
        let ghost mut done: int = 0;

        while actions.len() > 0
            invariant
                0 <= done <= q.len(),
                actions@ =~= q.subrange(done, q.len() as int),
                actions_applicable(q, b0),
                bounds.model() == bounds_after(q.subrange(0, done), b0),
                auto == flags_after(q.subrange(0, done), auto_bounds),
                items@ == items_of(q.subrange(0, done)),
                overlays@ == overlays_of(q.subrange(0, done)),
                events@ == events_of(q.subrange(0, done)),
            decreases actions@.len(),
        {
            let a = actions.remove(0);
            proof {
                assert(a == q[done]);
                assert(q.subrange(0, done + 1).drop_last() =~= q.subrange(0, done));
                assert(q.subrange(0, done + 1).last() == q[done]);
                lemma_applicable_at(q, b0, done);
            }
            if let Some(ev) = a.as_event() {
                events.push(ev);
            }
            match a {
                PlotAction::AddItem(item) => items.push(item),
                PlotAction::SetBoundsX(range) => {
                    bounds.set_x_range(range);
                    auto.x = false;
                },
                PlotAction::SetBoundsY(range) => {
                    bounds.set_y_range(range);
                    auto.y = false;
                },
                PlotAction::Translate(delta) => {
                    bounds.translate(delta.x, delta.y);
                    auto = AxisFlags { x: false, y: false };
                },
                PlotAction::SetAutoBounds(v) => {
                    auto = v;
                },
                PlotAction::Zoom(factor, center) => {
                    bounds.zoom(factor, center);
                    auto = AxisFlags { x: false, y: false };
                },
                PlotAction::AddOverlayShape(shape) => overlays.push(shape),
            }
            proof {
                done = done + 1;
                assert(actions@ =~= q.subrange(done, q.len() as int));
            }
        }
        proof {
            assert(q.subrange(0, done) =~= q);
        }
        AppliedActions { items, auto_bounds: auto, bounds, overlays, events }
    }
}

/// Setting one axis's range disables auto-bounds on that axis only: after
/// overwriting both flags, a set-X leaves the Y flag exactly as it was
/// set.
pub proof fn lemma_set_bounds_axis_scoped<I>(f: AxisFlags, t: AxisFlags, r: AxisRange)
    ensures
        flags_after::<I>(
            seq![PlotAction::SetAutoBounds(t), PlotAction::SetBoundsX(r)],
            f,
        ) == (AxisFlags { x: false, y: t.y }),
{
    reveal_with_fuel(flags_after, 3);
    let s: Seq<PlotAction<I>> = seq![PlotAction::SetAutoBounds(t), PlotAction::SetBoundsX(r)];
    assert(s.drop_last() =~= seq![PlotAction::<I>::SetAutoBounds(t)]);
    assert(s.drop_last().drop_last() =~= Seq::<PlotAction<I>>::empty());
}

/// Replaying a finished box zoom's recorded ranges as a set-X/set-Y action
/// pair reproduces exactly those ranges in the final bounds.
pub proof fn lemma_box_zoom_replay<I>(b: PlotBounds, rx: AxisRange, ry: AxisRange)
    ensures
        ({
            let after = bounds_after::<I>(
                seq![PlotAction::SetBoundsX(rx), PlotAction::SetBoundsY(ry)],
                b,
            );
            &&& after.min_x == Scalar::Finite(rx.start)
            &&& after.max_x == Scalar::Finite(rx.end)
            &&& after.min_y == Scalar::Finite(ry.start)
            &&& after.max_y == Scalar::Finite(ry.end)
        }),
{
    reveal_with_fuel(bounds_after, 3);
    let s: Seq<PlotAction<I>> = seq![PlotAction::SetBoundsX(rx), PlotAction::SetBoundsY(ry)];
    assert(s.drop_last() =~= seq![PlotAction::<I>::SetBoundsX(rx)]);
    assert(s.drop_last().drop_last() =~= Seq::<PlotAction<I>>::empty());
}

/// Pan deltas are additive: the net bounds translation of two translate
/// actions equals that of one action carrying the summed delta, however
/// many deltas the gesture emitted.
pub proof fn lemma_pan_deltas_additive<I>(b: PlotBounds, d1: PlotVec, d2: PlotVec, dsum: PlotVec)
    requires
        dsum.x == d1.x + d2.x,
        dsum.y == d1.y + d2.y,
        b.spec_can_translate(d1.x as int, d1.y as int),
        b.spec_translated(d1.x as int, d1.y as int).spec_can_translate(d2.x as int, d2.y as int),
    ensures
        bounds_after::<I>(
            seq![PlotAction::Translate(d1), PlotAction::Translate(d2)],
            b,
        ) == bounds_after::<I>(seq![PlotAction::Translate(dsum)], b),
        b.spec_can_translate(dsum.x as int, dsum.y as int),
{
    reveal_with_fuel(bounds_after, 3);
    let s: Seq<PlotAction<I>> = seq![PlotAction::Translate(d1), PlotAction::Translate(d2)];
    assert(s.drop_last() =~= seq![PlotAction::<I>::Translate(d1)]);
    assert(s.drop_last().drop_last() =~= Seq::<PlotAction<I>>::empty());
    let s1: Seq<PlotAction<I>> = seq![PlotAction::Translate(dsum)];
    assert(s1.drop_last() =~= Seq::<PlotAction<I>>::empty());
}

/// The translate actions of a sequence of pan deltas, in order.
pub open spec fn translates_of<I>(ds: Seq<PlotVec>) -> Seq<PlotAction<I>>
    decreases ds.len(),
{
    if ds.len() == 0 {
        Seq::empty()
    } else {
        translates_of::<I>(ds.drop_last()).push(PlotAction::Translate(ds.last()))
    }
}

/// The summed horizontal component of a sequence of pan deltas.
pub open spec fn sum_dx(ds: Seq<PlotVec>) -> int
    decreases ds.len(),
{
    if ds.len() == 0 {
        0
    } else {
        sum_dx(ds.drop_last()) + ds.last().x
    }
}

/// The summed vertical component of a sequence of pan deltas.
pub open spec fn sum_dy(ds: Seq<PlotVec>) -> int
    decreases ds.len(),
{
    if ds.len() == 0 {
        0
    } else {
        sum_dy(ds.drop_last()) + ds.last().y
    }
}

/// A whole pan gesture is additive: however many deltas it emitted, the
/// net effect of its translate actions is one translation by the summed
/// delta, which is itself in range.
pub proof fn lemma_pan_gesture_additive<I>(b: PlotBounds, ds: Seq<PlotVec>)
    requires
        actions_applicable(translates_of::<I>(ds), b),
    ensures
        bounds_after(translates_of::<I>(ds), b) == b.spec_translated(sum_dx(ds), sum_dy(ds)),
        b.spec_can_translate(sum_dx(ds), sum_dy(ds)),
    decreases ds.len(),
{
    let tl = translates_of::<I>(ds);
    if ds.len() == 0 {
        assert(b.spec_translated(0, 0) == b);
    } else {
        let dsp = ds.drop_last();
        let d = ds.last();
        assert(tl.drop_last() =~= translates_of::<I>(dsp));
        assert(tl.last() == PlotAction::<I>::Translate(d));
        lemma_pan_gesture_additive::<I>(b, dsp);
        crate::transform::lemma_translate_compose(
            b,
            sum_dx(dsp),
            sum_dy(dsp),
            d.x as int,
            d.y as int,
        );
    }
}

/// Setting the same range twice produces the same final bounds and flags
/// as setting it once.
pub proof fn lemma_set_bounds_idempotent<I>(b: PlotBounds, f: AxisFlags, r: AxisRange)
    ensures
        bounds_after::<I>(
            seq![PlotAction::SetBoundsX(r), PlotAction::SetBoundsX(r)],
            b,
        ) == bounds_after::<I>(seq![PlotAction::SetBoundsX(r)], b),
        flags_after::<I>(
            seq![PlotAction::SetBoundsX(r), PlotAction::SetBoundsX(r)],
            f,
        ) == flags_after::<I>(seq![PlotAction::SetBoundsX(r)], f),
{
    reveal_with_fuel(bounds_after, 3);
    reveal_with_fuel(flags_after, 3);
    let s: Seq<PlotAction<I>> = seq![PlotAction::SetBoundsX(r), PlotAction::SetBoundsX(r)];
    assert(s.drop_last() =~= seq![PlotAction::<I>::SetBoundsX(r)]);
    assert(s.drop_last().drop_last() =~= Seq::<PlotAction<I>>::empty());
    let s1: Seq<PlotAction<I>> = seq![PlotAction::SetBoundsX(r)];
    assert(s1.drop_last() =~= Seq::<PlotAction<I>>::empty());
}

} // verus!
