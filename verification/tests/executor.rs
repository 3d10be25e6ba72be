use egui_plot::action::{
    ActionExecutor, ActionQueue, AxisFlags, AxisRange, BoundsChangeCause, BoundsLike, PlotAction,
    PlotEvent,
};
use egui_plot::bound::Scalar;
use egui_plot::collect_events::{frame_summary_event, queue_applicable};
use egui_plot::transform::{PlotBounds, PlotPoint, PlotVec, ZoomFactor, ZoomFactors};

fn finite_bounds(min_x: i64, max_x: i64, min_y: i64, max_y: i64) -> PlotBounds {
    PlotBounds {
        min_x: Scalar::Finite(min_x),
        max_x: Scalar::Finite(max_x),
        min_y: Scalar::Finite(min_y),
        max_y: Scalar::Finite(max_y),
    }
}

fn both(on: bool) -> AxisFlags {
    AxisFlags { x: on, y: on }
}

#[test]
fn drain_applies_set_item_translate_in_order() {
    let mut q: ActionQueue<i32> = ActionQueue::new();
    q.set_bounds_x(AxisRange { start: 0, end: 10 });
    q.add_item(42);
    q.translate(PlotVec { x: 1, y: 0 });

    let r = ActionExecutor::apply(q, finite_bounds(-100, 100, -100, 100), both(true), None, None);

    assert_eq!(r.auto_bounds, both(false));
    assert_eq!(r.items, vec![42]);
    assert_eq!(r.bounds, finite_bounds(1, 11, -100, 100));
    let programmatic_changes = r
        .events
        .iter()
        .filter(|e| {
            matches!(
                e,
                PlotEvent::BoundsChanged {
                    cause: BoundsChangeCause::Programmatic,
                    ..
                }
            )
        })
        .count();
    assert_eq!(programmatic_changes, 1);
    // The translate action echoes nothing: the set is the only event.
    assert_eq!(r.events.len(), 1);
}

#[test]
fn set_bounds_disables_auto_on_its_axis_only() {
    let mut q: ActionQueue<i32> = ActionQueue::new();
    q.set_auto_bounds(both(true));
    q.set_bounds_x(AxisRange { start: -3, end: 3 });

    let r = ActionExecutor::apply(q, finite_bounds(0, 1, 0, 1), both(false), None, None);

    assert!(!r.auto_bounds.x);
    assert!(r.auto_bounds.y);
}

#[test]
fn set_bounds_y_disables_auto_on_y_only() {
    let mut q: ActionQueue<i32> = ActionQueue::new();
    q.set_auto_bounds(both(true));
    q.set_bounds_y(AxisRange { start: -3, end: 3 });

    let r = ActionExecutor::apply(q, finite_bounds(0, 1, 0, 1), both(false), None, None);

    assert!(r.auto_bounds.x);
    assert!(!r.auto_bounds.y);
}

#[test]
fn box_zoom_result_replays_into_exact_ranges() {
    // A finished box zoom recorded these per-axis ranges.
    let ev = PlotEvent::BoxZoomFinished {
        new_x: AxisRange { start: 2, end: 8 },
        new_y: AxisRange { start: -4, end: 4 },
        input: Default::default(),
    };
    let (new_x, new_y) = match ev {
        PlotEvent::BoxZoomFinished { new_x, new_y, .. } => (new_x, new_y),
        _ => unreachable!(),
    };

    let mut q: ActionQueue<i32> = ActionQueue::new();
    q.set_bounds_x(new_x);
    q.set_bounds_y(new_y);
    let r = ActionExecutor::apply(q, finite_bounds(-100, 100, -100, 100), both(true), None, None);

    assert_eq!(r.bounds, finite_bounds(2, 8, -4, 4));
}

#[test]
fn pan_deltas_are_additive() {
    // A pan gesture lifecycle with two deltas, as the host would emit it.
    let gesture = vec![
        PlotEvent::PanStarted {
            input: Default::default(),
        },
        PlotEvent::PanDelta {
            delta_plot_x: 3,
            delta_plot_y: -2,
            input: Default::default(),
        },
        PlotEvent::PanDelta {
            delta_plot_x: 4,
            delta_plot_y: 9,
            input: Default::default(),
        },
        PlotEvent::PanFinished {
            input: Default::default(),
        },
    ];
    let deltas: Vec<PlotVec> = gesture
        .iter()
        .filter_map(|e| match e {
            PlotEvent::PanDelta {
                delta_plot_x,
                delta_plot_y,
                ..
            } => Some(PlotVec {
                x: *delta_plot_x,
                y: *delta_plot_y,
            }),
            _ => None,
        })
        .collect();
    let d1 = deltas[0];
    let d2 = deltas[1];
    let start = finite_bounds(0, 10, 0, 10);

    let mut q1: ActionQueue<i32> = ActionQueue::new();
    q1.translate(d1);
    q1.translate(d2);
    let r1 = ActionExecutor::apply(q1, start, both(true), None, None);

    let mut q2: ActionQueue<i32> = ActionQueue::new();
    q2.translate(PlotVec {
        x: d1.x + d2.x,
        y: d1.y + d2.y,
    });
    let r2 = ActionExecutor::apply(q2, start, both(true), None, None);

    assert_eq!(r1.bounds, r2.bounds);
    assert_eq!(r1.bounds, finite_bounds(7, 17, 7, 17));
    assert_eq!(r1.auto_bounds, both(false));
}

#[test]
fn setting_the_same_range_twice_is_idempotent() {
    let r = AxisRange { start: -7, end: 7 };
    let start = finite_bounds(0, 1, 0, 1);

    let mut q1: ActionQueue<i32> = ActionQueue::new();
    q1.set_bounds_x(r);
    let once = ActionExecutor::apply(q1, start, both(true), None, None);

    let mut q2: ActionQueue<i32> = ActionQueue::new();
    q2.set_bounds_x(r);
    q2.set_bounds_x(r);
    let twice = ActionExecutor::apply(q2, start, both(true), None, None);

    assert_eq!(once.bounds, twice.bounds);
    assert_eq!(once.auto_bounds, twice.auto_bounds);
}

#[test]
fn zoom_shrinks_toward_the_pivot() {
    let mut q: ActionQueue<i32> = ActionQueue::new();
    let factor = ZoomFactors {
        x: ZoomFactor { num: 2, den: 1 },
        y: ZoomFactor { num: 2, den: 1 },
    };
    q.zoom(factor, PlotPoint { x: 5, y: 0 });
    let r = ActionExecutor::apply(q, finite_bounds(0, 10, -10, 10), both(true), None, None);

    // X edges move halfway toward the pivot 5; Y edges halfway toward 0.
    assert_eq!(r.bounds, finite_bounds(3, 7, -5, 5));
    assert_eq!(r.auto_bounds, both(false));
}

#[test]
fn zoom_pivot_on_an_edge_keeps_that_edge() {
    let mut q: ActionQueue<i32> = ActionQueue::new();
    let factor = ZoomFactors {
        x: ZoomFactor { num: 4, den: 1 },
        y: ZoomFactor { num: 1, den: 1 },
    };
    q.zoom(factor, PlotPoint { x: 0, y: 0 });
    let r = ActionExecutor::apply(q, finite_bounds(0, 100, -8, 8), both(true), None, None);

    assert_eq!(r.bounds, finite_bounds(0, 25, -8, 8));
}

#[test]
fn zoom_out_grows_the_extent() {
    let mut q: ActionQueue<i32> = ActionQueue::new();
    let factor = ZoomFactors {
        x: ZoomFactor { num: 1, den: 3 },
        y: ZoomFactor { num: 1, den: 1 },
    };
    q.zoom(factor, PlotPoint { x: 0, y: 0 });
    let r = ActionExecutor::apply(q, finite_bounds(-2, 2, 0, 1), both(true), None, None);

    assert_eq!(r.bounds, finite_bounds(-6, 6, 0, 1));
}

#[test]
fn translate_keeps_infinite_edges_infinite() {
    let start = PlotBounds {
        min_x: Scalar::NegInf,
        max_x: Scalar::Finite(10),
        min_y: Scalar::Finite(0),
        max_y: Scalar::PosInf,
    };
    let mut q: ActionQueue<i32> = ActionQueue::new();
    q.translate(PlotVec { x: 5, y: 5 });
    let r = ActionExecutor::apply(q, start, both(true), None, None);

    assert_eq!(r.bounds.min_x, Scalar::NegInf);
    assert_eq!(r.bounds.max_x, Scalar::Finite(15));
    assert_eq!(r.bounds.min_y, Scalar::Finite(5));
    assert_eq!(r.bounds.max_y, Scalar::PosInf);
}

#[test]
fn set_auto_bounds_overwrites_both_flags() {
    let mut q: ActionQueue<i32> = ActionQueue::new();
    q.translate(PlotVec { x: 1, y: 1 });
    q.set_auto_bounds(AxisFlags { x: true, y: false });
    let r = ActionExecutor::apply(q, finite_bounds(0, 1, 0, 1), both(false), None, None);

    assert_eq!(r.auto_bounds, AxisFlags { x: true, y: false });
}

#[test]
fn as_event_for_set_bounds_x_spans_that_axis() {
    let a: PlotAction<i32> = PlotAction::SetBoundsX(AxisRange { start: 0, end: 10 });
    match a.as_event() {
        Some(PlotEvent::BoundsChanged { old, new, cause }) => {
            assert_eq!(old, PlotBounds::nothing());
            assert_eq!(new.min_x, Scalar::Finite(0));
            assert_eq!(new.max_x, Scalar::Finite(10));
            assert_eq!(new.min_y, Scalar::NegInf);
            assert_eq!(new.max_y, Scalar::PosInf);
            assert_eq!(cause, BoundsChangeCause::Programmatic);
        }
        _ => panic!("set-bounds must echo a bounds-changed event"),
    }
}

#[test]
fn as_event_for_other_actions_is_none() {
    assert!(PlotAction::<i32>::Translate(PlotVec { x: 1, y: 1 })
        .as_event()
        .is_none());
    assert!(PlotAction::<i32>::AddItem(3).as_event().is_none());
    assert!(
        PlotAction::<i32>::SetAutoBounds(AxisFlags { x: true, y: true })
            .as_event()
            .is_none()
    );
}

#[test]
fn overlays_are_collected_in_order() {
    let mut q: ActionQueue<i32> = ActionQueue::new();
    q.push(PlotAction::AddOverlayShape(egui::Shape::Noop));
    q.add_item(1);
    q.push(PlotAction::AddOverlayShape(egui::Shape::Noop));
    let r = ActionExecutor::apply(q, finite_bounds(0, 1, 0, 1), both(true), None, None);

    assert_eq!(r.overlays.len(), 2);
    assert_eq!(r.items, vec![1]);
    assert!(r.events.is_empty());
}

#[test]
fn take_events_empties_the_log() {
    let mut q: ActionQueue<i32> = ActionQueue::new();
    q.set_bounds_x(AxisRange { start: 0, end: 1 });
    let mut r = ActionExecutor::apply(q, finite_bounds(0, 1, 0, 1), both(true), None, None);

    let taken = r.take_events();
    assert_eq!(taken.len(), 1);
    assert!(r.events.is_empty());
}

#[test]
fn events_mut_appends_to_the_log() {
    let mut q: ActionQueue<i32> = ActionQueue::new();
    q.set_bounds_x(AxisRange { start: 0, end: 1 });
    let mut r = ActionExecutor::apply(q, finite_bounds(0, 1, 0, 1), both(true), None, None);

    r.events_mut().push(PlotEvent::PinsCleared);
    assert_eq!(r.events.len(), 2);
    assert!(matches!(r.events[1], PlotEvent::PinsCleared));
}

#[test]
fn bounds_like_mutations_on_plot_bounds() {
    let mut b = finite_bounds(0, 10, 0, 10);
    b.set_x_range(AxisRange { start: -1, end: 1 });
    assert_eq!(b, finite_bounds(-1, 1, 0, 10));
    b.set_y_range(AxisRange { start: 20, end: 30 });
    assert_eq!(b, finite_bounds(-1, 1, 20, 30));
    b.translate(10, -20);
    assert_eq!(b, finite_bounds(9, 11, 0, 10));
    b.zoom(
        ZoomFactors {
            x: ZoomFactor { num: 1, den: 1 },
            y: ZoomFactor { num: 2, den: 1 },
        },
        PlotPoint { x: 0, y: 5 },
    );
    assert_eq!(b, finite_bounds(9, 11, 3, 7));
}

#[test]
fn inverted_set_range_is_stored_as_given() {
    let mut q: ActionQueue<i32> = ActionQueue::new();
    q.set_bounds_x(AxisRange { start: 9, end: 2 });
    let r = ActionExecutor::apply(q, finite_bounds(0, 1, 0, 1), both(true), None, None);
    assert_eq!(r.bounds.min_x, Scalar::Finite(9));
    assert_eq!(r.bounds.max_x, Scalar::Finite(2));
}

#[test]
fn queue_applicable_detects_out_of_range_steps() {
    let b = finite_bounds(1, 2, 0, 1);

    let mut q: ActionQueue<i32> = ActionQueue::new();
    q.translate(PlotVec { x: i64::MAX, y: 0 });
    assert!(!queue_applicable(&q, &b));

    let mut q2: ActionQueue<i32> = ActionQueue::new();
    q2.translate(PlotVec { x: 5, y: 5 });
    q2.set_bounds_x(AxisRange { start: 0, end: 9 });
    q2.zoom(
        ZoomFactors {
            x: ZoomFactor { num: 3, den: 2 },
            y: ZoomFactor { num: 1, den: 1 },
        },
        PlotPoint { x: 4, y: 4 },
    );
    assert!(queue_applicable(&q2, &b));

    // A zoom-out from a far pivot can push an edge out of range.
    let mut q3: ActionQueue<i32> = ActionQueue::new();
    q3.zoom(
        ZoomFactors {
            x: ZoomFactor { num: 1, den: 1_000_000 },
            y: ZoomFactor { num: 1, den: 1 },
        },
        PlotPoint {
            x: i64::MIN / 2,
            y: 0,
        },
    );
    assert!(!queue_applicable(&q3, &b));
}

#[test]
fn frame_summary_fires_only_when_bounds_moved() {
    let a = finite_bounds(0, 1, 0, 1);
    let b = finite_bounds(0, 2, 0, 1);

    assert!(frame_summary_event(&a, &a, BoundsChangeCause::Pan).is_none());

    match frame_summary_event(&a, &b, BoundsChangeCause::Pan) {
        Some(PlotEvent::BoundsChanged { old, new, cause }) => {
            assert_eq!(old, a);
            assert_eq!(new, b);
            assert_eq!(cause, BoundsChangeCause::Pan);
        }
        _ => panic!("moved bounds must yield one summary event"),
    }
}

#[test]
fn truncating_zoom_rounds_toward_the_pivot() {
    // 5 + (0 - 5) / 2 truncates to 5 - 2 = 3, not 5 - 3.
    let mut q: ActionQueue<i32> = ActionQueue::new();
    q.zoom(
        ZoomFactors {
            x: ZoomFactor { num: 2, den: 1 },
            y: ZoomFactor { num: 1, den: 1 },
        },
        PlotPoint { x: 5, y: 0 },
    );
    let r = ActionExecutor::apply(q, finite_bounds(0, 10, 0, 1), both(true), None, None);
    assert_eq!(r.bounds.min_x, Scalar::Finite(3));
    assert_eq!(r.bounds.max_x, Scalar::Finite(7));
}
