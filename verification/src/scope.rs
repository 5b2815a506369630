//! Edit scopes of the adjustment controls (the global image, one mask, or
//! mask mode with no mask selected) and the per-scope readiness of a control.
use vstd::prelude::*;

verus! {

/// Hover reason of every control while mask mode has no mask selected.
pub const MASK_NONE_HINT: &'static str = "Create or select a mask first";

/// Where an adjustment control's edits go.
#[derive(Clone, Copy, Debug, PartialEq, Eq, Structural)]
pub enum EditScope {
    /// The whole image.
    Global,
    /// The mask at this index.
    Mask(usize),
    /// Mask mode with no mask selected: nothing can be edited.
    MaskNone,
}

/// A control's readiness in the global and in the mask scope, with the
/// hover reason shown when it is not ready there (empty when ready).
#[derive(Clone, Copy, Debug)]
pub struct ScopeReadiness {
    pub global_ready: bool,
    pub mask_ready: bool,
    pub global_reason: &'static str,
    pub mask_reason: &'static str,
}

/// Whether a control renders enabled in `scope`, and the hover reason to
/// show when it doesn't: the global and mask scopes use their own flag and
/// reason; with no mask selected the control is always disabled, with a
/// fixed reason that overrides the control's own.
pub fn readiness(scope: EditScope, spec: &ScopeReadiness) -> (r: (bool, &'static str))
    ensures
        (match scope {
            EditScope::MaskNone => !r.0 && r.1@ == MASK_NONE_HINT@,
            EditScope::Mask(_) => r.0 == spec.mask_ready && r.1@ == spec.mask_reason@,
            EditScope::Global => r.0 == spec.global_ready && r.1@ == spec.global_reason@,
        }),
{
    match scope {
        EditScope::MaskNone => (false, MASK_NONE_HINT),
        EditScope::Mask(_) => (spec.mask_ready, spec.mask_reason),
        EditScope::Global => (spec.global_ready, spec.global_reason),
    }
}

} // verus!
