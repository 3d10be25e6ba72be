//! Recorded intents, the FIFO action queue, and the event taxonomy.
//!
//! During a frame's build phase the caller appends [`PlotAction`] values to
//! an [`ActionQueue`]; at end of frame the executor drains the queue once
//! and reduces it.  [`PlotEvent`] values are pure output describing what
//! happened this frame; consuming them never mutates state.

use vstd::prelude::*;
use crate::bound::Scalar;
use crate::egui_support::default_modifiers;
use crate::transform::{PlotBounds, PlotPoint, PlotVec, ZoomFactors};

verus! {

/// Why the plot's bounds or transform changed this frame.  The tag is
/// attached to every bounds change and preserved verbatim through the
/// pipeline, so downstream code can tell programmatic changes from
/// user-driven ones.
#[derive(Debug, Clone, Copy, PartialEq, Eq, Structural)]
pub enum BoundsChangeCause {
    /// Code requested a change via queued actions.
    Programmatic,
    /// User panned.
    Pan,
    /// User used wheel or touch to zoom.
    Zoom,
    /// User dragged on the X axis area to zoom that axis.
    AxisZoomX,
    /// User dragged on the Y axis area to zoom that axis.
    AxisZoomY,
    /// User dragged a rectangle to zoom into it.
    BoxZoom,
    /// Double-click reset to defaults, or an explicit reset.
    Reset,
    /// Auto-fit to content ran because auto-bounds was enabled.
    AutoFit,
    /// This plot synced from a linked group.
    LinkSync,
}

/// Optional input telemetry attached to events, for consumers that want to
/// correlate events with raw input without re-deriving it.
#[derive(Debug, Clone, Copy)]
pub struct InputInfo {
    /// Latest screen pointer position when the event was generated.
    pub pointer: Option<egui::Pos2>,
    /// Mouse button involved, if any.
    pub button: Option<egui::PointerButton>,
    /// Keyboard modifier snapshot.
    pub modifiers: egui::Modifiers,
}

impl Default for InputInfo {
    /// Empty telemetry: no pointer, no button, no modifiers.
    fn default() -> (r: InputInfo)
        ensures
            r.pointer is None,
            r.button is None,
    {
        InputInfo { pointer: None, button: None, modifiers: default_modifiers() }
    }
}

/// Public identifier type used in item-related events.
pub type PlotItemId = egui::Id;

/// Immutable value snapshot of every series' nearest sample at a pinned X
/// coordinate; safe against later mutation of the source series.
#[derive(Debug, Clone)]
pub struct PinSnapshot {
    /// The pinned X coordinate on the data plane.
    pub plot_x: i64,
    /// One row per series.
    pub rows: Vec<PinRow>,
}

/// One row of a pin snapshot: series name, sample, and display colour.
#[derive(Debug, Clone)]
pub struct PinRow {
    /// Name of the series the sample was taken from.
    pub series_name: String,
    /// Sample X coordinate.
    pub x: i64,
    /// Sample Y coordinate.
    pub y: i64,
    /// Display colour of the series, as RGBA bytes.
    pub color_rgba: [u8; 4],
}

/// A closed axis range recorded as its two endpoints, start first.  The
/// endpoints are assigned as given: an inverted pair produces inverted
/// bounds, just as it arrived.
#[derive(Debug, Clone, Copy, PartialEq, Eq, Structural)]
pub struct AxisRange {
    /// First endpoint (becomes the axis minimum).
    pub start: i64,
    /// Second endpoint (becomes the axis maximum).
    pub end: i64,
}

/// Per-axis auto-bounds flags: `true` means the axis is recomputed from
/// content every frame until explicitly disabled.
#[derive(Debug, Clone, Copy, PartialEq, Eq, Structural)]
pub struct AxisFlags {
    /// Auto-bounds on the X axis.
    pub x: bool,
    /// Auto-bounds on the Y axis.
    pub y: bool,
}

/// Adapter contract: the executor mutates a concrete bounds type through
/// these four total operations without depending on its representation.
/// Each implementor names the [`PlotBounds`] value it denotes, and every
/// operation says exactly how that value moves.
pub trait BoundsLike: Sized {
    /// The bounds value this object denotes.
    spec fn model(&self) -> PlotBounds;

    /// Replace the X range with `range`, endpoints assigned as given.
    fn set_x_range(&mut self, range: AxisRange)
        ensures
            final(self).model() == old(self).model().spec_with_x_range(range.start, range.end),
    ;

    /// Replace the Y range with `range`, endpoints assigned as given.
    fn set_y_range(&mut self, range: AxisRange)
        ensures
            final(self).model() == old(self).model().spec_with_y_range(range.start, range.end),
    ;

    /// Translate the bounds by `(dx, dy)` in plot-space units.
    fn translate(&mut self, dx: i64, dy: i64)
        requires
            old(self).model().spec_can_translate(dx as int, dy as int),
        ensures
            final(self).model() == old(self).model().spec_translated(dx as int, dy as int),
    ;

    /// Zoom the bounds around `center` by a per-axis factor; a factor above
    /// one shrinks the visible extent and the pivot stays fixed.
    fn zoom(&mut self, factor: ZoomFactors, center: PlotPoint)
        requires
            factor.wf(),
            old(self).model().spec_can_zoom(factor, center),
        ensures
            final(self).model() == old(self).model().spec_zoomed(factor, center),
    ;
}

impl BoundsLike for PlotBounds {
    /// A bounds value denotes itself.
    open spec fn model(&self) -> PlotBounds {
        *self
    }

    fn set_x_range(&mut self, range: AxisRange) {
        self.min_x = Scalar::Finite(range.start);
        self.max_x = Scalar::Finite(range.end);
    }

    fn set_y_range(&mut self, range: AxisRange) {
        self.min_y = Scalar::Finite(range.start);
        self.max_y = Scalar::Finite(range.end);
    }

    fn translate(&mut self, dx: i64, dy: i64) {
        self.min_x = crate::transform::shift_scalar(self.min_x, dx);
        self.max_x = crate::transform::shift_scalar(self.max_x, dx);
        self.min_y = crate::transform::shift_scalar(self.min_y, dy);
        self.max_y = crate::transform::shift_scalar(self.max_y, dy);
    }

    fn zoom(&mut self, factor: ZoomFactors, center: PlotPoint) {
        self.min_x = crate::transform::zoom_scalar(self.min_x, center.x, factor.x);
        self.max_x = crate::transform::zoom_scalar(self.max_x, center.x, factor.x);
        self.min_y = crate::transform::zoom_scalar(self.min_y, center.y, factor.y);
        self.max_y = crate::transform::zoom_scalar(self.max_y, center.y, factor.y);
    }
}

/// Output events produced during the render/interaction phase.  These are
/// non-mutating; they describe user intent and frame results.  The host
/// emits them as they happen and appends a single summary `BoundsChanged`
/// at frame end when the bounds differ from the frame start.
#[derive(Debug, Clone)]
pub enum PlotEvent {
    /// A key went down.
    KeyPressed {
        /// The key.
        key: egui::Key,
        /// Modifier snapshot.
        modifiers: egui::Modifiers,
    },
    /// A key went up.
    KeyReleased {
        /// The key.
        key: egui::Key,
        /// Modifier snapshot.
        modifiers: egui::Modifiers,
    },
    /// The plot was activated (clicked or focused).
    Activate {
        /// The item under the pointer, if any.
        hovered_item: Option<PlotItemId>,
    },
    /// The pointer hovers the plot at a data-plane position.
    Hover {
        /// Pointer position on the data plane.
        pos: PlotPoint,
    },
    /// A context menu was requested.
    ContextMenuRequested {
        /// Screen position of the request.
        screen_pos: egui::Pos2,
        /// The item under the pointer, if any.
        item: Option<PlotItemId>,
    },
    /// The bounds changed this frame.
    BoundsChanged {
        /// Bounds before the change (the canonical empty value for
        /// axis-scoped sets, whose true prior bounds are not tracked).
        old: PlotBounds,
        /// Bounds after the change.
        new: PlotBounds,
        /// Why the change happened.
        cause: BoundsChangeCause,
    },
    /// The transform was updated explicitly.
    TransformChanged {
        /// Bounds before the change.
        old: PlotBounds,
        /// Bounds after the change.
        new: PlotBounds,
        /// Why the change happened.
        cause: BoundsChangeCause,
    },
    /// Auto-fit ran, with the resulting bounds.
    AutoFitApplied {
        /// The bounds auto-fit produced.
        new: PlotBounds,
    },
    /// Reset to defaults took place this frame.
    ResetApplied {
        /// Input telemetry.
        input: InputInfo,
    },
    /// A pan gesture began.
    PanStarted {
        /// Input telemetry.
        input: InputInfo,
    },
    /// One pan step, as a plot-space delta.
    PanDelta {
        /// Horizontal delta.
        delta_plot_x: i64,
        /// Vertical delta.
        delta_plot_y: i64,
        /// Input telemetry.
        input: InputInfo,
    },
    /// The pan gesture ended.
    PanFinished {
        /// Input telemetry.
        input: InputInfo,
    },
    /// A wheel/touch zoom gesture began.
    ZoomStarted {
        /// Input telemetry.
        input: InputInfo,
    },
    /// One zoom step around a plot-space centre.
    ZoomDelta {
        /// Factor on the X axis.
        factor_x: crate::transform::ZoomFactor,
        /// Factor on the Y axis.
        factor_y: crate::transform::ZoomFactor,
        /// Centre of the zoom, X.
        center_plot_x: i64,
        /// Centre of the zoom, Y.
        center_plot_y: i64,
        /// Input telemetry.
        input: InputInfo,
    },
    /// The zoom gesture ended.
    ZoomFinished {
        /// Input telemetry.
        input: InputInfo,
    },
    /// An axis-drag zoom began; records which axes take part.
    AxisZoomDragStarted {
        /// X axis takes part.
        axis_x: bool,
        /// Y axis takes part.
        axis_y: bool,
        /// Input telemetry.
        input: InputInfo,
    },
    /// One axis-drag zoom step.
    AxisZoomDragDelta {
        /// Factor on the X axis.
        factor_x: crate::transform::ZoomFactor,
        /// Factor on the Y axis.
        factor_y: crate::transform::ZoomFactor,
        /// Input telemetry.
        input: InputInfo,
    },
    /// The axis-drag zoom ended.
    AxisZoomDragFinished {
        /// Input telemetry.
        input: InputInfo,
    },
    /// A box zoom began; records the screen-space anchor.
    BoxZoomStarted {
        /// Screen position where the drag started.
        screen_start: egui::Pos2,
        /// Input telemetry.
        input: InputInfo,
    },
    /// The box zoom finished with the resulting per-axis ranges.
    BoxZoomFinished {
        /// Resulting X range.
        new_x: AxisRange,
        /// Resulting Y range.
        new_y: AxisRange,
        /// Input telemetry.
        input: InputInfo,
    },
    /// The cursor moved to a data-plane position.
    CursorMoved {
        /// Cursor X on the data plane.
        plot_x: i64,
        /// Cursor Y on the data plane.
        plot_y: i64,
    },
    /// An item is hovered.
    ItemHovered {
        /// The hovered item.
        item: PlotItemId,
        /// Pointer position on the data plane.
        pos: PlotPoint,
    },
    /// An item was clicked.
    ItemClicked {
        /// The clicked item.
        item: PlotItemId,
        /// Pointer position on the data plane.
        pos: PlotPoint,
        /// Button that clicked.
        button: egui::PointerButton,
        /// Input telemetry.
        input: InputInfo,
    },
    /// A legend entry was toggled.
    LegendItemToggled {
        /// The toggled item.
        item: PlotItemId,
        /// Whether the item is now visible.
        now_visible: bool,
    },
    /// A pin was added, with a full value snapshot.
    PinAdded {
        /// The snapshot taken at the pinned X.
        snapshot: PinSnapshot,
    },
    /// The pin at `index` was removed.
    PinRemoved {
        /// Index of the removed pin.
        index: usize,
    },
    /// All pins were removed.
    PinsCleared,
}

/// One recorded intent.  `I` is the caller's renderable item type; the
/// core carries items opaquely and never invokes them.
#[derive(Debug)]
pub enum PlotAction<I> {
    /// Add a renderable item; the caller's renderer decides how to draw it.
    AddItem(I),
    /// Set the X bounds. Disables auto-bounds on X.
    SetBoundsX(AxisRange),
    /// Set the Y bounds. Disables auto-bounds on Y.
    SetBoundsY(AxisRange),
    /// Translate bounds by a plot-space delta. Disables auto-bounds.
    Translate(PlotVec),
    /// Set auto-bounds per axis (`true` enables auto).
    SetAutoBounds(AxisFlags),
    /// Zoom by a per-axis factor around a plot-space centre. Disables
    /// auto-bounds.
    Zoom(ZoomFactors, PlotPoint),
    /// Add an overlay shape to be painted after items.
    AddOverlayShape(egui::Shape),
}

/// An ordered, append-only record of the intents submitted during one
/// frame's build phase.  Drained exactly once per frame, in FIFO order.
#[derive(Debug)]
pub struct ActionQueue<I> {
    actions: Vec<PlotAction<I>>,
}

impl<I> View for ActionQueue<I> {
    type V = Seq<PlotAction<I>>;

    closed spec fn view(&self) -> Seq<PlotAction<I>> {
        self.actions@
    }
}

impl<I> Default for ActionQueue<I> {
    /// An empty queue.
    fn default() -> (r: Self)
        ensures
            r@ == Seq::<PlotAction<I>>::empty(),
    {
        ActionQueue { actions: Vec::new() }
    }
}

impl<I> ActionQueue<I> {
    /// Create an empty queue.
    pub fn new() -> (r: Self)
        ensures
            r@ == Seq::<PlotAction<I>>::empty(),
    {
        Self::default()
    }

    /// Push a single action to the back (FIFO).
    pub fn push(&mut self, action: PlotAction<I>)
        ensures
            final(self)@ == old(self)@.push(action),
    {
        self.actions.push(action);
    }

    /// Extend with a batch of actions, preserving the batch's order.
    pub fn extend(&mut self, batch: Vec<PlotAction<I>>)
        ensures
            final(self)@ == old(self)@ + batch@,
    {
        let mut batch = batch;
        self.actions.append(&mut batch);
    }

    /// Number of queued actions.
    pub fn len(&self) -> (r: usize)
        ensures
            r == self@.len(),
    {
        self.actions.len()
    }

    /// Whether the queue is empty.
    pub fn is_empty(&self) -> (r: bool)
        ensures
            r == (self@.len() == 0),
    {
        self.actions.is_empty()
    }

    /// Drain the queue by value: the queue is consumed and its actions come
    /// back in original insertion order.
    pub fn drain(self) -> (r: Vec<PlotAction<I>>)
        ensures
            r@ == self@,
    {
        self.actions
    }

    /// Record an add-item intent.
    pub fn add_item(&mut self, item: I)
        ensures
            final(self)@ == old(self)@.push(PlotAction::AddItem(item)),
    {
        self.push(PlotAction::AddItem(item));
    }

    /// Record a set-X-bounds intent.
    pub fn set_bounds_x(&mut self, r: AxisRange)
        ensures
            final(self)@ == old(self)@.push(PlotAction::SetBoundsX(r)),
    {
        self.push(PlotAction::SetBoundsX(r));
    }

    /// Record a set-Y-bounds intent.
    pub fn set_bounds_y(&mut self, r: AxisRange)
        ensures
            final(self)@ == old(self)@.push(PlotAction::SetBoundsY(r)),
    {
        self.push(PlotAction::SetBoundsY(r));
    }

    /// Record a translate intent.
    pub fn translate(&mut self, delta: PlotVec)
        ensures
            final(self)@ == old(self)@.push(PlotAction::Translate(delta)),
    {
        self.push(PlotAction::Translate(delta));
    }

    /// Record a set-auto-bounds intent.
    pub fn set_auto_bounds(&mut self, auto_bounds: AxisFlags)
        ensures
            final(self)@ == old(self)@.push(PlotAction::SetAutoBounds(auto_bounds)),
    {
        self.push(PlotAction::SetAutoBounds(auto_bounds));
    }

    /// Record a zoom intent.
    pub fn zoom(&mut self, zoom_factor: ZoomFactors, center: PlotPoint)
        ensures
            final(self)@ == old(self)@.push(PlotAction::Zoom(zoom_factor, center)),
    {
        self.push(PlotAction::Zoom(zoom_factor, center));
    }

    /// The queued actions, in order (not items directly).
    pub fn iter(&self) -> (r: &Vec<PlotAction<I>>)
        ensures
            r@ == self@,
    {
        &self.actions
    }

    /// References to the items of the add-item actions, in order.
    pub fn iter_items(&self) -> (r: Vec<&I>)
        ensures
            r@.len() == crate::collect_events::items_of(self@).len(),
            forall|j: int|
                0 <= j < r@.len() ==> *r@[j] == crate::collect_events::items_of(self@)[j],
    {
        let mut out: Vec<&I> = Vec::new();
        let n = self.actions.len();
        for i in 0..n
            invariant
                n == self@.len(),
                out@.len() == crate::collect_events::items_of(self@.subrange(0, i as int)).len(),
                forall|j: int|
                    0 <= j < out@.len() ==> *out@[j] == crate::collect_events::items_of(
                        self@.subrange(0, i as int),
                    )[j],
        {
            proof {
                assert(self@.subrange(0, i + 1).drop_last() =~= self@.subrange(0, i as int));
                assert(self@.subrange(0, i + 1).last() == self@[i as int]);
            }
            if let PlotAction::AddItem(item) = &self.actions[i] {
                out.push(item);
            }
        }
        proof {
            assert(self@.subrange(0, n as int) =~= self@);
        }
        out
    }
}

/// Result of applying a queue of actions in a given state: the items to
/// render, the final auto-bounds flags, the mutated bounds, the overlay
/// shapes to paint last, and the event log (which the caller may keep
/// appending to after reduction).
#[derive(Debug)]
pub struct AppliedActions<I, B> {
    /// Items to render, in submission order.
    pub items: Vec<I>,
    /// Final auto-bounds flags.
    pub auto_bounds: AxisFlags,
    /// Final mutated bounds.
    pub bounds: B,
    /// Overlay shapes to paint last, in submission order.
    pub overlays: Vec<egui::Shape>,
    /// Chronological event log.
    pub events: Vec<PlotEvent>,
}

impl<I, B> AppliedActions<I, B> {
    /// Take the event log out, leaving it empty.
    pub fn take_events(&mut self) -> (r: Vec<PlotEvent>)
        ensures
            r@ == old(self).events@,
            final(self).events@ == Seq::<PlotEvent>::empty(),
            final(self).items == old(self).items,
            final(self).auto_bounds == old(self).auto_bounds,
            final(self).bounds == old(self).bounds,
            final(self).overlays == old(self).overlays,
    {
        let mut taken: Vec<PlotEvent> = Vec::new();
        core::mem::swap(&mut self.events, &mut taken);
        taken
    }

    /// Borrow the event log to push interaction outputs.
    pub fn events_mut(&mut self) -> (r: &mut Vec<PlotEvent>)
        ensures
            *r == old(self).events,
            final(self).events == *final(r),
            final(self).items == old(self).items,
            final(self).auto_bounds == old(self).auto_bounds,
            final(self).bounds == old(self).bounds,
            final(self).overlays == old(self).overlays,
    {
        &mut self.events
    }
}

/// Deterministic executor: applies recorded actions in FIFO order, once
/// per frame.  Auto-fitting to content is not performed here; the caller
/// checks the returned flags and recomputes bounds from content itself.
pub struct ActionExecutor;

} // verus!
