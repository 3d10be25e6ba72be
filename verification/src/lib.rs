//! Deterministic plot-interaction core.
//!
//! The crate owns the interval algebra used to describe possibly-unbounded
//! numeric ranges, the viewport-bounds model those ranges mutate, a FIFO
//! queue of recorded intents, and the per-frame reducer that drains the
//! queue into an updated viewport state plus a typed event log.

pub mod action;
pub mod bound;
pub mod collect_events;
pub mod egui_support;
pub mod series_index;
pub mod span;
pub mod span_utils;
pub mod transform;
