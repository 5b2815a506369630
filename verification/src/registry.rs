//! Scope gating of the registered adjustment sliders of the three base
//! tabs: each control's id, the edit kind it records, and its readiness in
//! the global and mask scopes. (The sliders' ranges and steps are
//! floating-point layout data held by the UI.)
use vstd::prelude::*;
use crate::history::OpKind;
use crate::scope::ScopeReadiness;
use crate::tabs::AdjustmentId;

verus! {

/// The gating part of a registered slider.
#[derive(Clone, Copy, Debug)]
pub struct SliderGate {
    pub id: AdjustmentId,
    pub kind: OpKind,
    pub readiness: ScopeReadiness,
}

/// The Light tab's basic sliders, in display order.
pub open spec fn light_gates() -> Seq<SliderGate> {
    seq![
        SliderGate {
            id: AdjustmentId("exposure"),
            kind: OpKind::Exposure,
            readiness: ScopeReadiness {
                global_ready: true,
                mask_ready: true,
                global_reason: "",
                mask_reason: "",
            },
        },
        SliderGate {
            id: AdjustmentId("contrast"),
            kind: OpKind::Contrast,
            readiness: ScopeReadiness {
                global_ready: true,
                mask_ready: true,
                global_reason: "",
                mask_reason: "",
            },
        },
        SliderGate {
            id: AdjustmentId("highlights"),
            kind: OpKind::LocalAdjustments,
            readiness: ScopeReadiness {
                global_ready: false,
                mask_ready: true,
                global_reason: "Global Highlights arrive with the unified layer engine (Phase 3)",
                mask_reason: "",
            },
        },
        SliderGate {
            id: AdjustmentId("shadows"),
            kind: OpKind::LocalAdjustments,
            readiness: ScopeReadiness {
                global_ready: false,
                mask_ready: true,
                global_reason: "Global Shadows arrive with the unified layer engine (Phase 3)",
                mask_reason: "",
            },
        },
        SliderGate {
            id: AdjustmentId("whites"),
            kind: OpKind::LocalAdjustments,
            readiness: ScopeReadiness {
                global_ready: false,
                mask_ready: true,
                global_reason: "Global Whites arrive with the unified layer engine (Phase 3)",
                mask_reason: "",
            },
        },
        SliderGate {
            id: AdjustmentId("blacks"),
            kind: OpKind::LocalAdjustments,
            readiness: ScopeReadiness {
                global_ready: false,
                mask_ready: true,
                global_reason: "Global Blacks arrive with the unified layer engine (Phase 3)",
                mask_reason: "",
            },
        },
        SliderGate {
            id: AdjustmentId("temp"),
            kind: OpKind::WhiteBalance,
            readiness: ScopeReadiness {
                global_ready: true,
                mask_ready: true,
                global_reason: "",
                mask_reason: "",
            },
        },
        SliderGate {
            id: AdjustmentId("tint"),
            kind: OpKind::WhiteBalance,
            readiness: ScopeReadiness {
                global_ready: true,
                mask_ready: true,
                global_reason: "",
                mask_reason: "",
            },
        },
    ]
}

/// The Color tab's sliders, in display order.
pub open spec fn color_gates() -> Seq<SliderGate> {
    seq![
        SliderGate {
            id: AdjustmentId("saturation"),
            kind: OpKind::LocalAdjustments,
            readiness: ScopeReadiness {
                global_ready: false,
                mask_ready: true,
                global_reason: "Global Saturation arrives with the unified layer engine (Phase 3)",
                mask_reason: "",
            },
        },
        SliderGate {
            id: AdjustmentId("hue"),
            kind: OpKind::LocalAdjustments,
            readiness: ScopeReadiness {
                global_ready: false,
                mask_ready: true,
                global_reason: "Global Hue arrives with the unified layer engine (Phase 3)",
                mask_reason: "",
            },
        },
        SliderGate {
            id: AdjustmentId("vibrance"),
            kind: OpKind::LocalAdjustments,
            readiness: ScopeReadiness {
                global_ready: false,
                mask_ready: false,
                global_reason: "Vibrance arrives with the unified layer engine (Phase 3)",
                mask_reason: "Vibrance arrives with the unified layer engine (Phase 3)",
            },
        },
        SliderGate {
            id: AdjustmentId("color_amount"),
            kind: OpKind::LocalAdjustments,
            readiness: ScopeReadiness {
                global_ready: false,
                mask_ready: true,
                global_reason: "Global color overlay arrives with the unified layer engine (Phase 3)",
                mask_reason: "",
            },
        },
    ]
}

/// The Effects tab's sliders, in display order.
pub open spec fn effects_gates() -> Seq<SliderGate> {
    seq![
        SliderGate {
            id: AdjustmentId("sharpen_amount"),
            kind: OpKind::Sharpen,
            readiness: ScopeReadiness {
                global_ready: true,
                mask_ready: false,
                global_reason: "",
                mask_reason: "Per-mask Sharpening arrives with the per-mask neighborhood passes (Phase 4)",
            },
        },
        SliderGate {
            id: AdjustmentId("sharpen_radius"),
            kind: OpKind::Sharpen,
            readiness: ScopeReadiness {
                global_ready: true,
                mask_ready: false,
                global_reason: "",
                mask_reason: "Per-mask Sharpening arrives with the per-mask neighborhood passes (Phase 4)",
            },
        },
        SliderGate {
            id: AdjustmentId("nr_luminance"),
            kind: OpKind::LocalAdjustments,
            readiness: ScopeReadiness {
                global_ready: false,
                mask_ready: false,
                global_reason: "Noise reduction is not wired yet \u{2014} coming with its GPU pass",
                mask_reason: "Noise reduction is not wired yet \u{2014} coming with its GPU pass",
            },
        },
        SliderGate {
            id: AdjustmentId("nr_detail"),
            kind: OpKind::LocalAdjustments,
            readiness: ScopeReadiness {
                global_ready: false,
                mask_ready: false,
                global_reason: "Noise reduction is not wired yet \u{2014} coming with its GPU pass",
                mask_reason: "Noise reduction is not wired yet \u{2014} coming with its GPU pass",
            },
        },
        SliderGate {
            id: AdjustmentId("nr_color"),
            kind: OpKind::LocalAdjustments,
            readiness: ScopeReadiness {
                global_ready: false,
                mask_ready: false,
                global_reason: "Noise reduction is not wired yet \u{2014} coming with its GPU pass",
                mask_reason: "Noise reduction is not wired yet \u{2014} coming with its GPU pass",
            },
        },
        SliderGate {
            id: AdjustmentId("nr_color_detail"),
            kind: OpKind::LocalAdjustments,
            readiness: ScopeReadiness {
                global_ready: false,
                mask_ready: false,
                global_reason: "Noise reduction is not wired yet \u{2014} coming with its GPU pass",
                mask_reason: "Noise reduction is not wired yet \u{2014} coming with its GPU pass",
            },
        },
        SliderGate {
            id: AdjustmentId("dehaze_amount"),
            kind: OpKind::Dehaze,
            readiness: ScopeReadiness {
                global_ready: true,
                mask_ready: false,
                global_reason: "",
                mask_reason: "Per-mask Dehaze arrives with the per-mask neighborhood passes (Phase 4)",
            },
        },
        SliderGate {
            id: AdjustmentId("dehaze_radius"),
            kind: OpKind::Dehaze,
            readiness: ScopeReadiness {
                global_ready: true,
                mask_ready: false,
                global_reason: "",
                mask_reason: "Per-mask Dehaze arrives with the per-mask neighborhood passes (Phase 4)",
            },
        },
    ]
}

/// The Light tab's basic sliders (exposure, contrast, the four tone regions, white balance).
pub fn light_slider_gates() -> (v: Vec<SliderGate>)
    ensures
        v@ == light_gates(),
{
    let mut v: Vec<SliderGate> = Vec::new();
    v.push(
        SliderGate {
            id: AdjustmentId("exposure"),
            kind: OpKind::Exposure,
            readiness: ScopeReadiness {
                global_ready: true,
                mask_ready: true,
                global_reason: "",
                mask_reason: "",
            },
        },
    );
    v.push(
        SliderGate {
            id: AdjustmentId("contrast"),
            kind: OpKind::Contrast,
            readiness: ScopeReadiness {
                global_ready: true,
                mask_ready: true,
                global_reason: "",
                mask_reason: "",
            },
        },
    );
    v.push(
        SliderGate {
            id: AdjustmentId("highlights"),
            kind: OpKind::LocalAdjustments,
            readiness: ScopeReadiness {
                global_ready: false,
                mask_ready: true,
                global_reason: "Global Highlights arrive with the unified layer engine (Phase 3)",
                mask_reason: "",
            },
        },
    );
    v.push(
        SliderGate {
            id: AdjustmentId("shadows"),
            kind: OpKind::LocalAdjustments,
            readiness: ScopeReadiness {
                global_ready: false,
                mask_ready: true,
                global_reason: "Global Shadows arrive with the unified layer engine (Phase 3)",
                mask_reason: "",
            },
        },
    );
    v.push(
        SliderGate {
            id: AdjustmentId("whites"),
            kind: OpKind::LocalAdjustments,
            readiness: ScopeReadiness {
                global_ready: false,
                mask_ready: true,
                global_reason: "Global Whites arrive with the unified layer engine (Phase 3)",
                mask_reason: "",
            },
        },
    );
    v.push(
        SliderGate {
            id: AdjustmentId("blacks"),
            kind: OpKind::LocalAdjustments,
            readiness: ScopeReadiness {
                global_ready: false,
                mask_ready: true,
                global_reason: "Global Blacks arrive with the unified layer engine (Phase 3)",
                mask_reason: "",
            },
        },
    );
    v.push(
        SliderGate {
            id: AdjustmentId("temp"),
            kind: OpKind::WhiteBalance,
            readiness: ScopeReadiness {
                global_ready: true,
                mask_ready: true,
                global_reason: "",
                mask_reason: "",
            },
        },
    );
    v.push(
        SliderGate {
            id: AdjustmentId("tint"),
            kind: OpKind::WhiteBalance,
            readiness: ScopeReadiness {
                global_ready: true,
                mask_ready: true,
                global_reason: "",
                mask_reason: "",
            },
        },
    );
    v
}

/// The Color tab's sliders (saturation, hue, vibrance, color amount).
pub fn color_slider_gates() -> (v: Vec<SliderGate>)
    ensures
        v@ == color_gates(),
{
    let mut v: Vec<SliderGate> = Vec::new();
    v.push(
        SliderGate {
            id: AdjustmentId("saturation"),
            kind: OpKind::LocalAdjustments,
            readiness: ScopeReadiness {
                global_ready: false,
                mask_ready: true,
                global_reason: "Global Saturation arrives with the unified layer engine (Phase 3)",
                mask_reason: "",
            },
        },
    );
    v.push(
        SliderGate {
            id: AdjustmentId("hue"),
            kind: OpKind::LocalAdjustments,
            readiness: ScopeReadiness {
                global_ready: false,
                mask_ready: true,
                global_reason: "Global Hue arrives with the unified layer engine (Phase 3)",
                mask_reason: "",
            },
        },
    );
    v.push(
        SliderGate {
            id: AdjustmentId("vibrance"),
            kind: OpKind::LocalAdjustments,
            readiness: ScopeReadiness {
                global_ready: false,
                mask_ready: false,
                global_reason: "Vibrance arrives with the unified layer engine (Phase 3)",
                mask_reason: "Vibrance arrives with the unified layer engine (Phase 3)",
            },
        },
    );
    v.push(
        SliderGate {
            id: AdjustmentId("color_amount"),
            kind: OpKind::LocalAdjustments,
            readiness: ScopeReadiness {
                global_ready: false,
                mask_ready: true,
                global_reason: "Global color overlay arrives with the unified layer engine (Phase 3)",
                mask_reason: "",
            },
        },
    );
    v
}

/// The Effects tab's sliders (sharpening, noise reduction, dehaze).
pub fn effects_slider_gates() -> (v: Vec<SliderGate>)
    ensures
        v@ == effects_gates(),
{
    let mut v: Vec<SliderGate> = Vec::new();
    v.push(
        SliderGate {
            id: AdjustmentId("sharpen_amount"),
            kind: OpKind::Sharpen,
            readiness: ScopeReadiness {
                global_ready: true,
                mask_ready: false,
                global_reason: "",
                mask_reason: "Per-mask Sharpening arrives with the per-mask neighborhood passes (Phase 4)",
            },
        },
    );
    v.push(
        SliderGate {
            id: AdjustmentId("sharpen_radius"),
            kind: OpKind::Sharpen,
            readiness: ScopeReadiness {
                global_ready: true,
                mask_ready: false,
                global_reason: "",
                mask_reason: "Per-mask Sharpening arrives with the per-mask neighborhood passes (Phase 4)",
            },
        },
    );
    v.push(
        SliderGate {
            id: AdjustmentId("nr_luminance"),
            kind: OpKind::LocalAdjustments,
            readiness: ScopeReadiness {
                global_ready: false,
                mask_ready: false,
                global_reason: "Noise reduction is not wired yet \u{2014} coming with its GPU pass",
                mask_reason: "Noise reduction is not wired yet \u{2014} coming with its GPU pass",
            },
        },
    );
    v.push(
        SliderGate {
            id: AdjustmentId("nr_detail"),
            kind: OpKind::LocalAdjustments,
            readiness: ScopeReadiness {
                global_ready: false,
                mask_ready: false,
                global_reason: "Noise reduction is not wired yet \u{2014} coming with its GPU pass",
                mask_reason: "Noise reduction is not wired yet \u{2014} coming with its GPU pass",
            },
        },
    );
    v.push(
        SliderGate {
            id: AdjustmentId("nr_color"),
            kind: OpKind::LocalAdjustments,
            readiness: ScopeReadiness {
                global_ready: false,
                mask_ready: false,
                global_reason: "Noise reduction is not wired yet \u{2014} coming with its GPU pass",
                mask_reason: "Noise reduction is not wired yet \u{2014} coming with its GPU pass",
            },
        },
    );
    v.push(
        SliderGate {
            id: AdjustmentId("nr_color_detail"),
            kind: OpKind::LocalAdjustments,
            readiness: ScopeReadiness {
                global_ready: false,
                mask_ready: false,
                global_reason: "Noise reduction is not wired yet \u{2014} coming with its GPU pass",
                mask_reason: "Noise reduction is not wired yet \u{2014} coming with its GPU pass",
            },
        },
    );
    v.push(
        SliderGate {
            id: AdjustmentId("dehaze_amount"),
            kind: OpKind::Dehaze,
            readiness: ScopeReadiness {
                global_ready: true,
                mask_ready: false,
                global_reason: "",
                mask_reason: "Per-mask Dehaze arrives with the per-mask neighborhood passes (Phase 4)",
            },
        },
    );
    v.push(
        SliderGate {
            id: AdjustmentId("dehaze_radius"),
            kind: OpKind::Dehaze,
            readiness: ScopeReadiness {
                global_ready: true,
                mask_ready: false,
                global_reason: "",
                mask_reason: "Per-mask Dehaze arrives with the per-mask neighborhood passes (Phase 4)",
            },
        },
    );
    v
}

/// Every slider of the three base tabs, in tab order.
pub open spec fn all_gates() -> Seq<SliderGate> {
    light_gates() + color_gates() + effects_gates()
}

/// An id's length with its first and last character: enough to tell every
/// registered id apart.
pub open spec fn id_signature(id: Seq<char>) -> (nat, char, char) {
    (id.len(), id[0], id[id.len() - 1])
}

/// The signatures of the registered ids, in tab order.
pub open spec fn registry_signatures() -> Seq<(nat, char, char)> {
    seq![
        (8, 'e', 'e'),
        (8, 'c', 't'),
        (10, 'h', 's'),
        (7, 's', 's'),
        (6, 'w', 's'),
        (6, 'b', 's'),
        (4, 't', 'p'),
        (4, 't', 't'),
        (10, 's', 'n'),
        (3, 'h', 'e'),
        (8, 'v', 'e'),
        (12, 'c', 't'),
        (14, 's', 't'),
        (14, 's', 's'),
        (12, 'n', 'e'),
        (9, 'n', 'l'),
        (8, 'n', 'r'),
        (15, 'n', 'l'),
        (13, 'd', 't'),
        (13, 'd', 's'),
    ]
}

/// No two registered sliders share an id, across all three tabs: controls
/// are keyed by id, so a duplicate would make two rows indistinguishable.
/// Each id has its own signature (length, first and last character), and the
/// signatures are pairwise distinct.
pub proof fn lemma_registry_ids_unique()
    ensures
        forall|i: int, j: int|
            0 <= i < j < all_gates().len() ==> all_gates()[i].id.0@ != all_gates()[j].id.0@,
{
    reveal_strlit("blacks");
    reveal_strlit("color_amount");
    reveal_strlit("contrast");
    reveal_strlit("dehaze_amount");
    reveal_strlit("dehaze_radius");
    reveal_strlit("exposure");
    reveal_strlit("highlights");
    reveal_strlit("hue");
    reveal_strlit("nr_color");
    reveal_strlit("nr_color_detail");
    reveal_strlit("nr_detail");
    reveal_strlit("nr_luminance");
    reveal_strlit("saturation");
    reveal_strlit("shadows");
    reveal_strlit("sharpen_amount");
    reveal_strlit("sharpen_radius");
    reveal_strlit("temp");
    reveal_strlit("tint");
    reveal_strlit("vibrance");
    reveal_strlit("whites");
    let g = all_gates();
    let t = registry_signatures();
    assert(g.len() == t.len());
    assert forall|i: int| 0 <= i < g.len() implies id_signature(#[trigger] g[i].id.0@) == t[i] by {}
    assert forall|i: int, j: int| 0 <= i < j < t.len() implies t[i] != t[j] by {}
    assert forall|i: int, j: int| 0 <= i < j < g.len() implies g[i].id.0@ != g[j].id.0@ by {
        assert(id_signature(g[i].id.0@) == t[i]);
        assert(id_signature(g[j].id.0@) == t[j]);
    }
}

/// A slider that is not ready in a scope always carries a non-empty reason
/// for that scope, since the reason is shown verbatim as the disabled
/// control's tooltip.
pub proof fn lemma_not_ready_carries_reason()
    ensures
        forall|i: int|
            0 <= i < all_gates().len() ==> {
                &&& (!all_gates()[i].readiness.global_ready
                    ==> all_gates()[i].readiness.global_reason@.len() > 0)
                &&& (!all_gates()[i].readiness.mask_ready
                    ==> all_gates()[i].readiness.mask_reason@.len() > 0)
            },
{
    reveal_strlit("Global Blacks arrive with the unified layer engine (Phase 3)");
    reveal_strlit("Global Highlights arrive with the unified layer engine (Phase 3)");
    reveal_strlit("Global Hue arrives with the unified layer engine (Phase 3)");
    reveal_strlit("Global Saturation arrives with the unified layer engine (Phase 3)");
    reveal_strlit("Global Shadows arrive with the unified layer engine (Phase 3)");
    reveal_strlit("Global Whites arrive with the unified layer engine (Phase 3)");
    reveal_strlit("Global color overlay arrives with the unified layer engine (Phase 3)");
    reveal_strlit("Noise reduction is not wired yet \u{2014} coming with its GPU pass");
    reveal_strlit("Per-mask Dehaze arrives with the per-mask neighborhood passes (Phase 4)");
    reveal_strlit("Per-mask Sharpening arrives with the per-mask neighborhood passes (Phase 4)");
    reveal_strlit("Vibrance arrives with the unified layer engine (Phase 3)");
    let g = all_gates();
    assert forall|i: int| 0 <= i < g.len() implies {
        &&& (!g[i].readiness.global_ready ==> g[i].readiness.global_reason@.len() > 0)
        &&& (!g[i].readiness.mask_ready ==> g[i].readiness.mask_reason@.len() > 0)
    } by {
    }
}

/// Whether `id` is one of the four tone-region sliders (Highlights,
/// Shadows, Whites, Blacks) that are mask-only until the unified layer
/// engine lands.
pub open spec fn is_tone_region(id: Seq<char>) -> bool {
    id == "highlights"@ || id == "shadows"@ || id == "whites"@ || id == "blacks"@
}

/// The Light tab's gating: every row works on masks, with no mask reason; a
/// row works on the whole image exactly when it is not one of the four tone
/// regions, and then carries no global reason. So Exposure, Contrast, Temp
/// and Tint are live in both scopes.
pub proof fn lemma_light_tab_gating()
    ensures
        forall|i: int|
            0 <= i < light_gates().len() ==> {
                let g = #[trigger] light_gates()[i];
                &&& g.readiness.mask_ready
                &&& g.readiness.mask_reason@.len() == 0
                &&& g.readiness.global_ready <==> !is_tone_region(g.id.0@)
                &&& g.readiness.global_ready ==> g.readiness.global_reason@.len() == 0
            },
        exists|i: int|
            0 <= i < light_gates().len() && (#[trigger] light_gates()[i]).id.0@ == "exposure"@,
        exists|i: int|
            0 <= i < light_gates().len() && (#[trigger] light_gates()[i]).id.0@ == "contrast"@,
{
    reveal_strlit("");
    reveal_strlit("exposure");
    reveal_strlit("contrast");
    reveal_strlit("highlights");
    reveal_strlit("shadows");
    reveal_strlit("whites");
    reveal_strlit("blacks");
    reveal_strlit("temp");
    reveal_strlit("tint");
    let g = light_gates();
    assert(g[0].id.0@ == "exposure"@);
    assert(g[1].id.0@ == "contrast"@);
    assert(!is_tone_region("exposure"@) && !is_tone_region("contrast"@));
    assert("temp"@.len() == 4 && "tint"@.len() == 4);
    assert("temp"@ != "highlights"@ && "temp"@ != "shadows"@);
    assert("temp"@ != "whites"@ && "temp"@ != "blacks"@);
    assert("tint"@ != "highlights"@ && "tint"@ != "shadows"@);
    assert("tint"@ != "whites"@ && "tint"@ != "blacks"@);
    assert(!is_tone_region("temp"@) && !is_tone_region("tint"@));
    assert(is_tone_region("highlights"@) && is_tone_region("shadows"@));
    assert(is_tone_region("whites"@) && is_tone_region("blacks"@));
    assert forall|i: int| 0 <= i < g.len() implies {
        let x = #[trigger] g[i];
        &&& x.readiness.mask_ready
        &&& x.readiness.mask_reason@.len() == 0
        &&& x.readiness.global_ready <==> !is_tone_region(x.id.0@)
        &&& x.readiness.global_ready ==> x.readiness.global_reason@.len() == 0
    } by {
        if i == 0 {
        } else if i == 1 {
        } else if i == 2 {
            assert(g[2].id.0@ == "highlights"@);
        } else if i == 3 {
            assert(g[3].id.0@ == "shadows"@);
        } else if i == 4 {
            assert(g[4].id.0@ == "whites"@);
        } else if i == 5 {
            assert(g[5].id.0@ == "blacks"@);
        } else if i == 6 {
            assert(g[6].id.0@ == "temp"@);
        } else {
            assert(g[7].id.0@ == "tint"@);
        }
    }
}

} // verus!
