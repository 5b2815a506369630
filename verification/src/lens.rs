//! Lens-correction availability: which correction rows of the Lens
//! Corrections panel are enabled for the matched lens, the text shown for
//! them, and whether a loaded correction needs its lens data re-baked.
use vstd::prelude::*;

verus! {

/// Which corrections the lens database has calibration data for, for one
/// lens / focal length / aperture combination.
#[derive(Clone, Copy, Debug, PartialEq, Eq, Structural)]
pub struct LensCaps {
    pub distortion: bool,
    pub tca: bool,
    pub vignetting: bool,
}

/// A correction row whose availability depends on the matched lens.
/// (Vignetting has no gate: manual gain works without any lens.)
#[derive(Clone, Copy, Debug, PartialEq, Eq, Structural)]
pub enum GatedCorrection {
    Distortion,
    Tca,
}

/// Enabled state of a gated row, plus the reason shown when it is disabled.
#[derive(Clone, Debug, PartialEq, Eq)]
pub struct RowGate {
    pub enabled: bool,
    pub hover_text: Option<&'static str>,
}

/// Whether `caps` has data for the correction `which`.
pub open spec fn has_data(caps: LensCaps, which: GatedCorrection) -> bool {
    match which {
        GatedCorrection::Distortion => caps.distortion,
        GatedCorrection::Tca => caps.tca,
    }
}

/// Whether a gated row is enabled: a lens is matched, its capabilities
/// resolved, and they include this correction.
pub open spec fn gate_enabled(has_lens: bool, caps: Option<LensCaps>, which: GatedCorrection) -> bool {
    has_lens && (caps matches Some(c) && has_data(c, which))
}

/// The disabled-row reason: the generic hint when no lens (or no resolvable
/// capabilities) is available, a correction-specific one when the lens lacks
/// the data, none when the row is enabled.
pub open spec fn gate_hint(has_lens: bool, caps: Option<LensCaps>, which: GatedCorrection) -> Option<
    Seq<char>,
> {
    if !has_lens || caps is None {
        Some("Needs a matched lens"@)
    } else if gate_enabled(has_lens, caps, which) {
        None
    } else {
        match which {
            GatedCorrection::Distortion => Some("No distortion data for this lens"@),
            GatedCorrection::Tca => Some("No TCA data for this lens"@),
        }
    }
}

/// A gated row carries a reason exactly when it is disabled: enabled rows
/// never show a (stale) reason, disabled rows always explain themselves.
pub proof fn lemma_reason_iff_disabled(has_lens: bool, caps: Option<LensCaps>, which: GatedCorrection)
    ensures
        gate_hint(has_lens, caps, which) is Some <==> !gate_enabled(has_lens, caps, which),
{
}

/// Decide whether a Distortion/TCA row is enabled and what reason to show
/// when it isn't. A matched lens whose capabilities no longer resolve is
/// treated like no lens at all.
pub fn correction_row_gate(has_lens: bool, caps: Option<LensCaps>, which: GatedCorrection) -> (g:
    RowGate)
    ensures
        g.enabled == gate_enabled(has_lens, caps, which),
        g.hover_text is Some <==> gate_hint(has_lens, caps, which) is Some,
        g.hover_text matches Some(t) ==> gate_hint(has_lens, caps, which) == Some(t@),
{
    let resolved = if has_lens {
        caps
    } else {
        None
    };
    match resolved {
        None => RowGate { enabled: false, hover_text: Some("Needs a matched lens") },
        Some(c) => {
            let data = match which {
                GatedCorrection::Distortion => c.distortion,
                GatedCorrection::Tca => c.tca,
            };
            if data {
                RowGate { enabled: true, hover_text: None }
            } else {
                RowGate {
                    enabled: false,
                    hover_text: Some(
                        match which {
                            GatedCorrection::Distortion => "No distortion data for this lens",
                            GatedCorrection::Tca => "No TCA data for this lens",
                        },
                    ),
                }
            }
        },
    }
}

/// The Vignette row's label: plain when the lens has a vignetting profile,
/// otherwise marked manual (the row itself is always enabled).
pub fn vignette_row_label(caps: Option<LensCaps>) -> (label: &'static str)
    ensures
        label@ == (if (caps matches Some(c) && c.vignetting) {
            "Vignette"@
        } else {
            "Vignette (manual)"@
        }),
{
    let has_profile = match caps {
        Some(c) => c.vignetting,
        None => false,
    };
    if has_profile {
        "Vignette"
    } else {
        "Vignette (manual)"
    }
}

/// The title line of a correction group: the plain name, or the name with
/// the disabled reason appended (" — reason") when the row is disabled and
/// has a reason.
pub fn correction_title(name: &str, enabled: bool, hover_text: Option<&str>) -> (title: String)
    ensures
        title@ == (match hover_text {
            Some(reason) => if !enabled {
                name@ + " \u{2014} "@ + reason@
            } else {
                name@
            },
            None => name@,
        }),
{
    match hover_text {
        Some(reason) => {
            if !enabled {
                let mut t = String::from_str(name);
                t.append(" \u{2014} ");
                t.append(reason);
                t
            } else {
                String::from_str(name)
            }
        },
        None => String::from_str(name),
    }
}

/// One lens correction's switch.
#[derive(Clone, Copy, Debug, PartialEq, Eq, Structural)]
pub struct Correction {
    pub enabled: bool,
}

/// The parts of a persisted lens correction that decide whether its lens
/// data must be baked: the matched lens key and the three correction
/// switches.
#[derive(Clone, Debug, PartialEq, Eq)]
pub struct LensCorrection {
    pub lens_id: Option<String>,
    pub distortion: Correction,
    pub tca: Correction,
    pub vignetting: Correction,
}

/// Whether a just-loaded lens correction needs its products re-baked: only
/// when there is a lens key and at least one correction is enabled (anything
/// else bakes to the identity).
pub fn needs_rebake_on_load(lc: &LensCorrection) -> (b: bool)
    ensures
        b == (lc.lens_id is Some && (lc.distortion.enabled || lc.tca.enabled
            || lc.vignetting.enabled)),
{
    lc.lens_id.is_some() && (lc.distortion.enabled || lc.tca.enabled || lc.vignetting.enabled)
}

} // verus!
