use vstd::prelude::*;

verus! {

/// Relies on egui::Context, the GUI library's retained state handle: a
/// shared reference-counted handle, opaque here; the bridge only stores
/// it, clones it, and asks it whether a repaint is wanted.
#[verifier::external_type_specification]
#[verifier::external_body]
pub struct ExContext(egui::Context);

/// Relies on egui::Context::default: builds a fresh context; nothing is
/// assumed about its initial state.
pub assume_specification[ <egui::Context as Default>::default ]() -> egui::Context;

/// Relies on the derived egui::Context::clone: the context is a
/// reference-counted handle, so a clone is the same context.
pub assume_specification[ <egui::Context as Clone>::clone ](ctx: &egui::Context) -> (r:
    egui::Context)
    ensures
        r == *ctx,
;

/// Relies on egui::Context::has_requested_repaint: whether the drawn
/// content asked for another frame.  The answer depends on the context's
/// internal state, so nothing is promised about it; callers state what
/// holds of either answer.
pub assume_specification[ egui::Context::has_requested_repaint ](ctx: &egui::Context) -> bool;

} // verus!
