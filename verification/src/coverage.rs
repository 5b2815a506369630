//! User-facing camera color-profile coverage status for the open image:
//! surfaces when a RAW decoded without a usable camera color matrix (sRGB
//! fallback in effect) so the user knows the colors are approximate.
use vstd::prelude::*;

verus! {

/// Whether the open file is a camera RAW or a standard raster.
#[derive(Debug, Clone, Copy, PartialEq, Eq, Structural)]
pub enum FileKind {
    Standard,
    Raw,
}

/// Camera color-profile coverage state for the open image.
#[derive(Debug, Clone, Copy, PartialEq, Eq, Structural)]
pub enum CoverageStatus {
    /// Not a RAW: no camera-matrix concept. Render nothing.
    NotApplicable,
    /// RAW whose full decode has not completed: the stored profile is still
    /// the seed fallback and is not authoritative. Render nothing.
    Pending,
    /// RAW decoded with a real camera matrix.
    Calibrated,
    /// RAW decoded without a usable matrix: sRGB fallback (the warning).
    Fallback,
}

impl CoverageStatus {
    /// Short warning-chip label, or `None` when no chip should be shown.
    pub fn chip_label(self) -> (label: Option<&'static str>)
        ensures
            label is Some <==> self == CoverageStatus::Fallback,
            label matches Some(s) ==> s@ == "approximate color"@,
    {
        match self {
            CoverageStatus::Fallback => Some("approximate color"),
            _ => None,
        }
    }

    /// Hover tooltip explaining the chip, or `None` when there is no chip.
    pub fn tooltip(self) -> (tip: Option<&'static str>)
        ensures
            tip is Some <==> self == CoverageStatus::Fallback,
            tip matches Some(s) ==> s@ == ("No color profile for this camera \u{2014} colors are approximate (sRGB fallback). Consider contributing a sample upstream to rawler.")@,
    {
        match self {
            CoverageStatus::Fallback => Some(
                "No color profile for this camera \u{2014} colors are approximate (sRGB fallback). Consider contributing a sample upstream to rawler.",
            ),
            _ => None,
        }
    }
}

/// Coverage status from the open image's kind, whether its full decode has
/// completed, and the decoded profile's fallback flag. The fallback flag
/// alone is not enough: it is set for the seed profile before decode and is
/// meaningless for non-RAW rasters.
pub fn camera_coverage(kind: FileKind, full_ready: bool, is_fallback: bool) -> (s: CoverageStatus)
    ensures
        s == (match kind {
            FileKind::Standard => CoverageStatus::NotApplicable,
            FileKind::Raw => if !full_ready {
                CoverageStatus::Pending
            } else if is_fallback {
                CoverageStatus::Fallback
            } else {
                CoverageStatus::Calibrated
            },
        }),
{
    match kind {
        FileKind::Standard => CoverageStatus::NotApplicable,
        FileKind::Raw => {
            if !full_ready {
                CoverageStatus::Pending
            } else if is_fallback {
                CoverageStatus::Fallback
            } else {
                CoverageStatus::Calibrated
            }
        },
    }
}

} // verus!
