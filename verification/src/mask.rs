//! Mask tools: the handles of gradient masks and the kinds of mask
//! components with their list labels and editability.
use vstd::prelude::*;

verus! {

/// Handles of a linear-gradient mask.
#[derive(Clone, Copy, PartialEq, Eq, Debug, Structural)]
pub enum LinHandle {
    Start,
    End,
    Body,
}

/// Handles of a radial-gradient mask. `Both` is create-only: it grows both
/// radii together from the drag origin and is never the result of a hit test.
#[derive(Clone, Copy, PartialEq, Eq, Debug, Structural)]
pub enum RadHandle {
    Center,
    RadiusX,
    RadiusY,
    Both,
}

/// The kind of a mask component.
#[derive(Clone, Copy, PartialEq, Eq, Debug, Structural)]
pub enum MaskComponentKind {
    Brush,
    LinearGradient,
    RadialGradient,
    LumaRange,
    ColorRange,
    Imported,
}

/// Human-readable label for a component's type (component list rows).
pub fn component_label(c: &MaskComponentKind) -> (l: &'static str)
    ensures
        l@ == (match *c {
            MaskComponentKind::Brush => "Brush"@,
            MaskComponentKind::LinearGradient => "Linear gradient"@,
            MaskComponentKind::RadialGradient => "Radial gradient"@,
            MaskComponentKind::LumaRange => "Luminance range"@,
            MaskComponentKind::ColorRange => "Color range"@,
            MaskComponentKind::Imported => "Imported"@,
        }),
{
    match c {
        MaskComponentKind::Brush => "Brush",
        MaskComponentKind::LinearGradient => "Linear gradient",
        MaskComponentKind::RadialGradient => "Radial gradient",
        MaskComponentKind::LumaRange => "Luminance range",
        MaskComponentKind::ColorRange => "Color range",
        MaskComponentKind::Imported => "Imported",
    }
}

/// Every hand-authored component can be re-edited; an imported raster
/// (the AI seam) cannot.
pub fn is_editable(c: &MaskComponentKind) -> (b: bool)
    ensures
        b == (*c != MaskComponentKind::Imported),
{
    match c {
        MaskComponentKind::Imported => false,
        _ => true,
    }
}

} // verus!
