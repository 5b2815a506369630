use ferrolite_app::lens::{
    correction_row_gate, correction_title, needs_rebake_on_load, vignette_row_label, Correction,
    GatedCorrection, LensCaps, LensCorrection,
};

fn caps(distortion: bool, tca: bool, vignetting: bool) -> LensCaps {
    LensCaps { distortion, tca, vignetting }
}

#[test]
fn no_lens_disables_distortion_with_needs_a_lens_hint() {
    let gate = correction_row_gate(false, None, GatedCorrection::Distortion);
    assert!(!gate.enabled);
    assert_eq!(gate.hover_text, Some("Needs a matched lens"));
}

#[test]
fn no_lens_disables_tca_with_needs_a_lens_hint() {
    let gate = correction_row_gate(false, None, GatedCorrection::Tca);
    assert!(!gate.enabled);
    assert_eq!(gate.hover_text, Some("Needs a matched lens"));
}

#[test]
fn lens_matched_but_caps_none_disables_with_needs_a_lens_hint() {
    let gate = correction_row_gate(true, None, GatedCorrection::Distortion);
    assert!(!gate.enabled);
    assert_eq!(gate.hover_text, Some("Needs a matched lens"));
}

#[test]
fn fe_24mm_has_distortion_and_tca_but_no_vignetting() {
    let c = Some(caps(true, true, false));
    let distortion = correction_row_gate(true, c, GatedCorrection::Distortion);
    assert!(distortion.enabled);
    assert_eq!(distortion.hover_text, None);

    let tca = correction_row_gate(true, c, GatedCorrection::Tca);
    assert!(tca.enabled);
    assert_eq!(tca.hover_text, None);
}

#[test]
fn lens_matched_without_distortion_data_disables_with_specific_hint() {
    let c = Some(caps(false, true, true));
    let gate = correction_row_gate(true, c, GatedCorrection::Distortion);
    assert!(!gate.enabled);
    assert_eq!(gate.hover_text, Some("No distortion data for this lens"));
}

#[test]
fn lens_matched_without_tca_data_disables_with_specific_hint() {
    let c = Some(caps(true, false, true));
    let gate = correction_row_gate(true, c, GatedCorrection::Tca);
    assert!(!gate.enabled);
    assert_eq!(gate.hover_text, Some("No TCA data for this lens"));
}

#[test]
fn caps_are_ignored_without_a_matched_lens() {
    let gate = correction_row_gate(false, Some(caps(true, true, true)), GatedCorrection::Tca);
    assert!(!gate.enabled);
    assert_eq!(gate.hover_text, Some("Needs a matched lens"));
}

#[test]
fn vignette_label_is_plain_when_profile_data_present() {
    assert_eq!(vignette_row_label(Some(caps(true, true, true))), "Vignette");
}

#[test]
fn vignette_label_is_manual_when_no_vignetting_profile() {
    assert_eq!(vignette_row_label(Some(caps(true, true, false))), "Vignette (manual)");
}

#[test]
fn vignette_label_is_manual_when_caps_is_none() {
    assert_eq!(vignette_row_label(None), "Vignette (manual)");
}

#[test]
fn correction_title_is_plain_name_when_enabled() {
    assert_eq!(correction_title("Distortion", true, None), "Distortion");
}

#[test]
fn correction_title_appends_reason_when_disabled_with_hover_text() {
    assert_eq!(
        correction_title("Distortion", false, Some("Needs a matched lens")),
        "Distortion \u{2014} Needs a matched lens"
    );
    assert_eq!(
        correction_title("Transverse CA", false, Some("No TCA data for this lens")),
        "Transverse CA \u{2014} No TCA data for this lens"
    );
}

#[test]
fn correction_title_ignores_hover_text_when_enabled() {
    assert_eq!(correction_title("Distortion", true, Some("stale reason")), "Distortion");
}

#[test]
fn correction_title_is_plain_name_when_disabled_without_hover_text() {
    assert_eq!(correction_title("Vignette", false, None), "Vignette");
}

fn lc(lens_id: Option<&str>, dist: bool, tca: bool, vig: bool) -> LensCorrection {
    LensCorrection {
        lens_id: lens_id.map(String::from),
        distortion: Correction { enabled: dist },
        tca: Correction { enabled: tca },
        vignetting: Correction { enabled: vig },
    }
}

#[test]
fn no_rebake_when_no_lens_matched() {
    assert!(!needs_rebake_on_load(&lc(None, true, true, true)));
}

#[test]
fn no_rebake_when_lens_matched_but_all_corrections_off() {
    assert!(!needs_rebake_on_load(&lc(Some("EF 24-70"), false, false, false)));
}

#[test]
fn rebakes_when_lens_matched_and_distortion_enabled() {
    assert!(needs_rebake_on_load(&lc(Some("EF 24-70"), true, false, false)));
}

#[test]
fn rebakes_when_lens_matched_and_only_vignetting_enabled() {
    assert!(needs_rebake_on_load(&lc(Some("EF 24-70"), false, false, true)));
}
