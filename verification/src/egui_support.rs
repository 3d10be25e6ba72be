//! Opaque declarations of host-toolkit types that ride through the action
//! and event records as payload.
//!
//! The core never reads inside these values; it only carries them from the
//! producer of an action or event to its consumer.  Each declaration makes
//! the named `egui` type usable in signatures and fields while keeping it
//! fully opaque to the verifier.

use vstd::prelude::*;

verus! {

/// Declares `egui::Pos2`, a screen-space position, as an opaque payload
/// type (pointer telemetry, box-zoom anchors).
#[verifier::external_type_specification]
#[verifier::external_body]
pub struct ExPos2(egui::Pos2);

/// Declares `egui::PointerButton`, the mouse button of a click, as an
/// opaque payload type.
#[verifier::external_type_specification]
#[verifier::external_body]
pub struct ExPointerButton(egui::PointerButton);

/// Declares `egui::Modifiers`, a keyboard-modifier snapshot, as an opaque
/// payload type.
#[verifier::external_type_specification]
#[verifier::external_body]
pub struct ExModifiers(egui::Modifiers);

/// Declares `egui::Key`, a keyboard key, as an opaque payload type.
#[verifier::external_type_specification]
#[verifier::external_body]
pub struct ExKey(egui::Key);

/// Declares `egui::Id`, the host's stable widget/item identifier, as an
/// opaque payload type.
#[verifier::external_type_specification]
#[verifier::external_body]
pub struct ExId(egui::Id);

/// Declares `egui::Shape`, a paintable shape, as an opaque payload type
/// (overlay decorations are carried, never inspected).
#[verifier::external_type_specification]
#[verifier::external_body]
pub struct ExShape(egui::Shape);

/// Declares `egui::Color32`, a premultiplied RGBA colour, as an opaque
/// payload type.
#[verifier::external_type_specification]
#[verifier::external_body]
pub struct ExColor32(egui::Color32);

/// Declares `egui::Stroke`, an outline width and colour, as an opaque
/// payload type.
#[verifier::external_type_specification]
#[verifier::external_body]
pub struct ExStroke(egui::Stroke);

/// Declares `egui::Response`, the host widget's per-frame interaction
/// summary, as an opaque payload type.
#[verifier::external_type_specification]
#[verifier::external_body]
pub struct ExResponse(egui::Response);

/// Relies on `egui::Pos2`'s derived `Clone` on a `Copy` type: the clone
/// equals the original.
pub assume_specification[ <egui::Pos2 as core::clone::Clone>::clone ](v: &egui::Pos2) -> (r:
    egui::Pos2)
    ensures
        r == *v,
;

/// Relies on `egui::PointerButton`'s derived `Clone` on a `Copy` type: the
/// clone equals the original.
pub assume_specification[ <egui::PointerButton as core::clone::Clone>::clone ](
    v: &egui::PointerButton,
) -> (r: egui::PointerButton)
    ensures
        r == *v,
;

/// Relies on `egui::Modifiers`'s derived `Clone` on a `Copy` type: the
/// clone equals the original.
pub assume_specification[ <egui::Modifiers as core::clone::Clone>::clone ](
    v: &egui::Modifiers,
) -> (r: egui::Modifiers)
    ensures
        r == *v,
;

/// Relies on `egui::Key`'s derived `Clone` on a `Copy` type: the clone
/// equals the original.
pub assume_specification[ <egui::Key as core::clone::Clone>::clone ](v: &egui::Key) -> (r:
    egui::Key)
    ensures
        r == *v,
;

/// Relies on `egui::Id`'s derived `Clone` on a `Copy` type: the clone
/// equals the original.
pub assume_specification[ <egui::Id as core::clone::Clone>::clone ](v: &egui::Id) -> (r: egui::Id)
    ensures
        r == *v,
;

/// Relies on `egui::Color32`'s derived `Clone` on a `Copy` type: the clone
/// equals the original.
pub assume_specification[ <egui::Color32 as core::clone::Clone>::clone ](v: &egui::Color32) -> (r:
    egui::Color32)
    ensures
        r == *v,
;

/// Relies on `egui::Stroke`'s derived `Clone` on a `Copy` type: the clone
/// equals the original.
pub assume_specification[ <egui::Stroke as core::clone::Clone>::clone ](v: &egui::Stroke) -> (r:
    egui::Stroke)
    ensures
        r == *v,
;

/// Relies on `egui::Shape`'s derived `Clone`; nothing is claimed of the
/// copy, which is carried as opaque payload only.
pub assume_specification[ <egui::Shape as core::clone::Clone>::clone ](v: &egui::Shape) -> (r:
    egui::Shape);

/// Relies on `egui::Color32::from_rgba_unmultiplied`: builds the
/// translucent grey used as the spans' default fill.
#[verifier::external_body]
pub fn default_span_fill() -> egui::Color32 {
    egui::Color32::from_rgba_unmultiplied(128, 128, 128, 40)
}

/// Relies on `egui::Modifiers::default`: the empty modifier snapshot used
/// by the default input telemetry.
#[verifier::external_body]
pub fn default_modifiers() -> egui::Modifiers {
    egui::Modifiers::default()
}

} // verus!
