use ferrolite_app::history::OpKind;
use ferrolite_app::registry::{
    color_slider_gates, effects_slider_gates, light_slider_gates, SliderGate,
};
use ferrolite_app::scope::{readiness, EditScope};

fn ids(gates: &[SliderGate]) -> Vec<&'static str> {
    gates.iter().map(|g| g.id.0).collect()
}

fn all_gates() -> Vec<SliderGate> {
    let mut v = light_slider_gates();
    v.extend(color_slider_gates());
    v.extend(effects_slider_gates());
    v
}

#[test]
fn light_registry_rows_and_gating() {
    let gates = light_slider_gates();
    assert_eq!(
        ids(&gates),
        vec!["exposure", "contrast", "highlights", "shadows", "whites", "blacks", "temp", "tint"]
    );
    let ex = gates.iter().find(|g| g.id.0 == "exposure").unwrap();
    assert!(ex.readiness.global_ready && ex.readiness.mask_ready);
    assert_eq!(ex.kind, OpKind::Exposure);
    let hl = gates.iter().find(|g| g.id.0 == "highlights").unwrap();
    assert!(!hl.readiness.global_ready && hl.readiness.mask_ready);
    assert_eq!(
        hl.readiness.global_reason,
        "Global Highlights arrive with the unified layer engine (Phase 3)"
    );
    assert!(gates
        .iter()
        .filter(|g| g.id.0 == "temp" || g.id.0 == "tint")
        .all(|g| g.kind == OpKind::WhiteBalance));
}

#[test]
fn color_registry_rows_and_gating() {
    let specs = color_slider_gates();
    assert_eq!(ids(&specs), vec!["saturation", "hue", "vibrance", "color_amount"]);
    assert!(
        specs.iter().all(|s| !s.readiness.global_ready),
        "none global-live until Phase 3"
    );
    let vib = specs.iter().find(|s| s.id.0 == "vibrance").unwrap();
    assert!(!vib.readiness.mask_ready, "vibrance has no shader in any scope yet");
    assert!(specs
        .iter()
        .filter(|s| s.id.0 != "vibrance")
        .all(|s| s.readiness.mask_ready));
}

#[test]
fn effects_registry_rows_and_gating() {
    let specs = effects_slider_gates();
    assert_eq!(
        ids(&specs),
        vec![
            "sharpen_amount",
            "sharpen_radius",
            "nr_luminance",
            "nr_detail",
            "nr_color",
            "nr_color_detail",
            "dehaze_amount",
            "dehaze_radius"
        ]
    );
    assert!(specs
        .iter()
        .filter(|s| s.id.0.starts_with("nr_"))
        .all(|s| !s.readiness.global_ready && !s.readiness.mask_ready));
    assert!(specs
        .iter()
        .filter(|s| s.id.0.starts_with("sharpen") || s.id.0.starts_with("dehaze"))
        .all(|s| s.readiness.global_ready && !s.readiness.mask_ready));
}

#[test]
fn all_registry_ids_are_unique_across_the_three_tabs() {
    let ids: Vec<&str> = all_gates().iter().map(|s| s.id.0).collect();
    let unique: std::collections::BTreeSet<&str> = ids.iter().copied().collect();
    assert_eq!(
        unique.len(),
        ids.len(),
        "duplicate AdjustmentId(s) found across the registry: {ids:?}"
    );
}

#[test]
fn every_not_ready_spec_carries_a_reason() {
    for spec in all_gates() {
        if !spec.readiness.global_ready {
            assert!(
                !spec.readiness.global_reason.is_empty(),
                "{}: global_ready=false must carry a non-empty global_reason",
                spec.id.0
            );
        }
        if !spec.readiness.mask_ready {
            assert!(
                !spec.readiness.mask_reason.is_empty(),
                "{}: mask_ready=false must carry a non-empty mask_reason",
                spec.id.0
            );
        }
    }
}

#[test]
fn registry_gate_drives_scope_readiness() {
    let effects = effects_slider_gates();
    let sharpen = effects.iter().find(|g| g.id.0 == "sharpen_amount").unwrap();
    assert_eq!(readiness(EditScope::Global, &sharpen.readiness), (true, ""));
    assert_eq!(
        readiness(EditScope::Mask(2), &sharpen.readiness),
        (
            false,
            "Per-mask Sharpening arrives with the per-mask neighborhood passes (Phase 4)"
        )
    );
    assert_eq!(
        readiness(EditScope::MaskNone, &sharpen.readiness),
        (false, "Create or select a mask first")
    );
}
