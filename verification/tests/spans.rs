use egui_plot::bound::{Bound, Interval, Scalar};
use egui_plot::series_index::{resolve_slice_range, IndexBound};
use egui_plot::span::{HSpan, VSpan};
use egui_plot::span_utils::{interval_to_screen_x, interval_to_screen_y};
use egui_plot::transform::{PlotBounds, PlotTransform, ScreenRect};

fn frame() -> ScreenRect {
    ScreenRect {
        left: 0,
        right: 200,
        top: 0,
        bottom: 100,
    }
}

/// X maps one data unit to two screen units; Y is flipped, as screen Y
/// grows downward.
fn tf() -> PlotTransform {
    PlotTransform {
        frame: frame(),
        x_scale: 2,
        x_offset: 0,
        y_scale: -10,
        y_offset: 100,
    }
}

#[test]
fn finite_y_interval_projects_and_reorders() {
    // Data y in [3, 8] maps to screen 100-10*y: 70 and 20; order flips.
    let i = Interval::closed(3, 8);
    let (top, bottom) = interval_to_screen_y(&i, &tf());
    assert_eq!((top, bottom), (20, 70));
}

#[test]
fn unbounded_y_ends_fall_to_frame_edges() {
    let below = Interval::below(5);
    let (top, bottom) = interval_to_screen_y(&below, &tf());
    // Finite end 5 projects to 50; the unbounded start falls to the bottom.
    assert_eq!((top, bottom), (50, 100));

    let above = Interval::above(5);
    let (top, bottom) = interval_to_screen_y(&above, &tf());
    assert_eq!((top, bottom), (0, 50));

    let all = Interval::all();
    assert_eq!(interval_to_screen_y(&all, &tf()), (0, 100));
}

#[test]
fn finite_x_interval_projects_in_order() {
    let i = Interval::closed(10, 30);
    assert_eq!(interval_to_screen_x(&i, &tf()), (20, 60));
}

#[test]
fn unbounded_x_ends_fall_to_frame_edges() {
    let below = Interval::below(50);
    assert_eq!(interval_to_screen_x(&below, &tf()), (0, 100));
    let above = Interval::above(50);
    assert_eq!(interval_to_screen_x(&above, &tf()), (100, 200));
}

#[test]
fn flipped_x_axis_still_yields_ordered_span() {
    let flipped = PlotTransform {
        frame: frame(),
        x_scale: -2,
        x_offset: 200,
        y_scale: -10,
        y_offset: 100,
    };
    let i = Interval::closed(10, 30);
    // 10 -> 180, 30 -> 140: reordered after projection.
    assert_eq!(interval_to_screen_x(&i, &flipped), (140, 180));
}

#[test]
fn hspan_builders_set_fields() {
    let s = HSpan::new("band".to_string(), Interval::closed(1, 2))
        .color(egui::Color32::RED)
        .outline(egui::Stroke::new(1.0, egui::Color32::BLACK))
        .visible(false);
    assert_eq!(s.base.name, "band");
    assert_eq!(s.y, Interval::closed(1, 2));
    assert_eq!(s.fill, egui::Color32::RED);
    assert!(s.stroke.is_some());
    assert!(!s.visible);
}

#[test]
fn hspan_bounds_cover_finite_ends_only() {
    let s = HSpan::new("h".to_string(), Interval::closed(-3, 9));
    let b = s.bounds();
    assert_eq!(b.min_y, Scalar::Finite(-3));
    assert_eq!(b.max_y, Scalar::Finite(9));
    // X stays at the canonical empty value.
    assert_eq!(b.min_x, Scalar::PosInf);
    assert_eq!(b.max_x, Scalar::NegInf);

    let half = HSpan::new("half".to_string(), Interval::below(4));
    let b = half.bounds();
    assert_eq!(b.min_y, Scalar::Finite(4));
    assert_eq!(b.max_y, Scalar::Finite(4));

    let open = HSpan::new("all".to_string(), Interval::all());
    assert_eq!(open.bounds(), PlotBounds::nothing());
}

#[test]
fn vspan_builders_and_bounds() {
    let s = VSpan::new("v".to_string(), Interval::closed(2, 6)).visible(true);
    assert_eq!(s.base.name, "v");
    assert!(s.visible);
    let b = s.bounds();
    assert_eq!(b.min_x, Scalar::Finite(2));
    assert_eq!(b.max_x, Scalar::Finite(6));
    assert_eq!(b.min_y, Scalar::PosInf);
    assert_eq!(b.max_y, Scalar::NegInf);
}

#[test]
fn vspan_with_open_interval_end() {
    let s = VSpan::new(
        "open".to_string(),
        Interval::new(
            Bound::Finite {
                value: 1,
                closed: false,
            },
            Bound::PosInf,
        ),
    );
    let b = s.bounds();
    // Openness does not matter for bounds; only finiteness does.
    assert_eq!(b.min_x, Scalar::Finite(1));
    assert_eq!(b.max_x, Scalar::Finite(1));
}

#[test]
fn resolve_slice_range_honours_endpoint_kinds() {
    assert_eq!(
        resolve_slice_range(IndexBound::Unbounded, IndexBound::Unbounded, 5),
        Some((0, 5))
    );
    assert_eq!(
        resolve_slice_range(IndexBound::Included(1), IndexBound::Excluded(4), 5),
        Some((1, 4))
    );
    assert_eq!(
        resolve_slice_range(IndexBound::Included(1), IndexBound::Included(4), 5),
        Some((1, 5))
    );
    assert_eq!(
        resolve_slice_range(IndexBound::Excluded(1), IndexBound::Unbounded, 5),
        Some((2, 5))
    );
}

#[test]
fn resolve_slice_range_clamps_to_length() {
    assert_eq!(
        resolve_slice_range(IndexBound::Included(0), IndexBound::Included(99), 5),
        Some((0, 5))
    );
    assert_eq!(
        resolve_slice_range(IndexBound::Included(99), IndexBound::Unbounded, 5),
        None
    );
}

#[test]
fn resolve_slice_range_rejects_empty_requests() {
    assert_eq!(
        resolve_slice_range(IndexBound::Included(3), IndexBound::Excluded(3), 5),
        None
    );
    assert_eq!(
        resolve_slice_range(IndexBound::Included(4), IndexBound::Excluded(2), 5),
        None
    );
    assert_eq!(
        resolve_slice_range(IndexBound::Unbounded, IndexBound::Unbounded, 0),
        None
    );
}

#[test]
fn extend_with_grows_the_empty_region_to_a_point() {
    let mut b = PlotBounds::nothing();
    b.extend_with_x(5);
    b.extend_with_y(-2);
    assert_eq!(b.min_x, Scalar::Finite(5));
    assert_eq!(b.max_x, Scalar::Finite(5));
    assert_eq!(b.min_y, Scalar::Finite(-2));
    assert_eq!(b.max_y, Scalar::Finite(-2));
    b.extend_with_x(-5);
    assert_eq!(b.min_x, Scalar::Finite(-5));
    assert_eq!(b.max_x, Scalar::Finite(5));
}
