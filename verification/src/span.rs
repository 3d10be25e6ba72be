//! Shaded span items: a horizontal band over a Y interval and a vertical
//! band over an X interval.
//!
//! The spans hold their interval, fill and outline; projecting the
//! interval to screen space and painting the rectangle is the renderer's
//! job.  The data-bounds query used for auto-fit is verified here: only
//! finite interval ends extend the region.

use vstd::prelude::*;
use crate::bound::{Bound, Interval};
use crate::egui_support::default_span_fill;
use crate::transform::PlotBounds;

verus! {

/// Shared plot-item metadata.
#[derive(Debug, Clone)]
pub struct PlotItemBase {
    /// Display name, used for the legend and for identity.
    pub name: String,
}

/// Horizontal shaded band over a Y interval, across the full plot width.
#[derive(Debug, Clone)]
pub struct HSpan {
    /// Plot-item metadata.
    pub base: PlotItemBase,
    /// Vertical interval in data space.
    pub y: Interval,
    /// Fill colour of the band.
    pub fill: egui::Color32,
    /// Optional outline stroke; `None` means no outline.
    pub stroke: Option<egui::Stroke>,
    /// Code-controlled visibility toggle.
    pub visible: bool,
}

impl HSpan {
    /// Data bounds for auto-fit: the canonical empty region extended with
    /// each finite end of the Y interval.
    pub open spec fn spec_bounds(self) -> PlotBounds {
        let b0 = PlotBounds::spec_nothing();
        let b1 = match self.y.start {
            Bound::Finite { value, .. } => b0.spec_extended_with_y(value),
            _ => b0,
        };
        match self.y.end {
            Bound::Finite { value, .. } => b1.spec_extended_with_y(value),
            _ => b1,
        }
    }

    /// Create a horizontal span from an explicit Y interval.
    pub fn new(name: String, y: Interval) -> (r: HSpan)
        ensures
            r.base.name == name,
            r.y == y,
            r.stroke is None,
            r.visible == true,
    {
        HSpan {
            base: PlotItemBase { name },
            y,
            fill: default_span_fill(),
            stroke: None,
            visible: true,
        }
    }

    /// Set the fill colour.
    pub fn color(self, color: egui::Color32) -> (r: HSpan)
        ensures
            r == (HSpan { fill: color, ..self }),
    {
        HSpan { fill: color, ..self }
    }

    /// Set an outline stroke around the span.
    pub fn outline(self, stroke: egui::Stroke) -> (r: HSpan)
        ensures
            r == (HSpan { stroke: Some(stroke), ..self }),
    {
        HSpan { stroke: Some(stroke), ..self }
    }

    /// Toggle visibility (code-controlled show/hide).
    pub fn visible(self, yes: bool) -> (r: HSpan)
        ensures
            r == (HSpan { visible: yes, ..self }),
    {
        HSpan { visible: yes, ..self }
    }

    /// Compute the data bounds used for auto-fit.
    pub fn bounds(&self) -> (r: PlotBounds)
        ensures
            r == self.spec_bounds(),
    {
        let mut b = PlotBounds::nothing();
        if let Bound::Finite { value, .. } = self.y.start {
            b.extend_with_y(value);
        }
        if let Bound::Finite { value, .. } = self.y.end {
            b.extend_with_y(value);
        }
        b
    }
}

/// Vertical shaded band over an X interval, across the full plot height.
#[derive(Debug, Clone)]
pub struct VSpan {
    /// Plot-item metadata.
    pub base: PlotItemBase,
    /// Horizontal interval in data space.
    pub x: Interval,
    /// Fill colour of the band (usually translucent).
    pub fill: egui::Color32,
    /// Optional outline stroke; `None` means no outline.
    pub stroke: Option<egui::Stroke>,
    /// Code-controlled visibility toggle.
    pub visible: bool,
}

impl VSpan {
    /// Data bounds for auto-fit: the canonical empty region extended with
    /// each finite end of the X interval.
    pub open spec fn spec_bounds(self) -> PlotBounds {
        let b0 = PlotBounds::spec_nothing();
        let b1 = match self.x.start {
            Bound::Finite { value, .. } => b0.spec_extended_with_x(value),
            _ => b0,
        };
        match self.x.end {
            Bound::Finite { value, .. } => b1.spec_extended_with_x(value),
            _ => b1,
        }
    }

    /// Create a vertical span from an explicit X interval.
    pub fn new(name: String, x: Interval) -> (r: VSpan)
        ensures
            r.base.name == name,
            r.x == x,
            r.stroke is None,
            r.visible == true,
    {
        VSpan {
            base: PlotItemBase { name },
            x,
            fill: default_span_fill(),
            stroke: None,
            visible: true,
        }
    }

    /// Set the fill colour.
    pub fn color(self, color: egui::Color32) -> (r: VSpan)
        ensures
            r == (VSpan { fill: color, ..self }),
    {
        VSpan { fill: color, ..self }
    }

    /// Set an outline stroke around the span.
    pub fn outline(self, stroke: egui::Stroke) -> (r: VSpan)
        ensures
            r == (VSpan { stroke: Some(stroke), ..self }),
    {
        VSpan { stroke: Some(stroke), ..self }
    }

    /// Toggle visibility (code-controlled show/hide).
    pub fn visible(self, yes: bool) -> (r: VSpan)
        ensures
            r == (VSpan { visible: yes, ..self }),
    {
        VSpan { visible: yes, ..self }
    }

    /// Compute the data bounds used for auto-fit.
    pub fn bounds(&self) -> (r: PlotBounds)
        ensures
            r == self.spec_bounds(),
    {
        let mut b = PlotBounds::nothing();
        if let Bound::Finite { value, .. } = self.x.start {
            b.extend_with_x(value);
        }
        if let Bound::Finite { value, .. } = self.x.end {
            b.extend_with_x(value);
        }
        b
    }
}

} // verus!
