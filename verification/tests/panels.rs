use ferrolite_app::coverage::{camera_coverage, CoverageStatus, FileKind};
use ferrolite_app::crop::{cursor_for, route_drag, CursorKind, DragRoute, Handle};
use ferrolite_app::curve::Channel;
use ferrolite_app::histogram::peak_bin;
use ferrolite_app::info::{format_info_rows, toggle_info_panel, ImageFacts};
use ferrolite_app::mask::{component_label, is_editable, MaskComponentKind};
use ferrolite_app::tabs::{base_tabs, AdjustmentId, InfoTab, TabId};
use ferrolite_app::viewer::{Viewer, ViewerCanvasState};

#[test]
fn standard_is_not_applicable() {
    assert_eq!(camera_coverage(FileKind::Standard, true, true), CoverageStatus::NotApplicable);
    assert_eq!(camera_coverage(FileKind::Standard, false, false), CoverageStatus::NotApplicable);
}

#[test]
fn raw_before_full_decode_is_pending() {
    assert_eq!(camera_coverage(FileKind::Raw, false, true), CoverageStatus::Pending);
}

#[test]
fn raw_decoded_with_matrix_is_calibrated() {
    assert_eq!(camera_coverage(FileKind::Raw, true, false), CoverageStatus::Calibrated);
}

#[test]
fn raw_decoded_without_matrix_is_fallback() {
    assert_eq!(camera_coverage(FileKind::Raw, true, true), CoverageStatus::Fallback);
}

#[test]
fn only_fallback_shows_a_chip_and_tooltip() {
    assert!(CoverageStatus::Fallback.chip_label().is_some());
    assert!(CoverageStatus::Fallback.tooltip().is_some());
    for s in [CoverageStatus::NotApplicable, CoverageStatus::Pending, CoverageStatus::Calibrated] {
        assert!(s.chip_label().is_none());
        assert!(s.tooltip().is_none());
    }
}

#[test]
fn fallback_chip_and_tooltip_text() {
    assert_eq!(CoverageStatus::Fallback.chip_label(), Some("approximate color"));
    assert_eq!(
        CoverageStatus::Fallback.tooltip(),
        Some(
            "No color profile for this camera \u{2014} colors are approximate (sRGB fallback). \
             Consider contributing a sample upstream to rawler."
        )
    );
}

#[test]
fn route_drag_sends_body_to_move_handles_to_resize_and_misses_to_pan() {
    assert_eq!(route_drag(Some(Handle::Body)), DragRoute::MoveBody);
    for h in [
        Handle::TopLeft,
        Handle::Top,
        Handle::TopRight,
        Handle::Right,
        Handle::BottomRight,
        Handle::Bottom,
        Handle::BottomLeft,
        Handle::Left,
    ] {
        assert_eq!(route_drag(Some(h)), DragRoute::Resize(h));
    }
    assert_eq!(route_drag(None), DragRoute::Pan);
}

#[test]
fn cursor_for_names_the_gesture_per_handle() {
    assert_eq!(cursor_for(Handle::Body), CursorKind::Move);
    assert_eq!(cursor_for(Handle::TopLeft), CursorKind::ResizeNwSe, "diagonal corners");
    assert_eq!(cursor_for(Handle::BottomLeft), CursorKind::ResizeNeSw);
    assert_eq!(cursor_for(Handle::Top), CursorKind::ResizeVertical);
    assert_eq!(cursor_for(Handle::Right), CursorKind::ResizeHorizontal);
}

#[test]
fn channel_label_is_short_and_stable() {
    assert_eq!(Channel::Master.label(), "Master");
    assert_eq!(Channel::Red.label(), "R");
    assert_eq!(Channel::Green.label(), "G");
    assert_eq!(Channel::Blue.label(), "B");
}

#[test]
fn peak_is_max_bin_min_one() {
    assert_eq!(peak_bin(&[0, 0, 0]), 1, "empty peak floors at 1");
    assert_eq!(peak_bin(&[3, 9, 4]), 9);
}

#[test]
fn peak_of_no_bins_and_of_large_bins() {
    assert_eq!(peak_bin(&[]), 1);
    assert_eq!(peak_bin(&[u32::MAX, 5]), u32::MAX);
    let mut bins = vec![0u32; 1024];
    bins[0] = 5;
    bins[256] = 10;
    assert_eq!(peak_bin(&bins), 10);
}

fn facts() -> ImageFacts {
    ImageFacts {
        camera: "FUJIFILM X-T5".into(),
        lens: "XF35mmF1.4 R".into(),
        focal: "35mm (53mm eq.)".into(),
        aperture: "f/2.8".into(),
        shutter: "1/250".into(),
        iso: "ISO 400".into(),
        capture_time: "2026:01:02 10:11:12".into(),
        dimensions: "6000 × 4000".into(),
        zoom: "100%".into(),
    }
}

#[test]
fn format_rows_with_facts() {
    let facts = facts();
    let rows = format_info_rows(Some(&facts));
    assert_eq!(rows.len(), 9);
    assert_eq!(rows[0], ("Camera", "FUJIFILM X-T5".to_string()));
    assert_eq!(rows[1], ("Lens", "XF35mmF1.4 R".to_string()));
    assert_eq!(rows[2], ("Focal", "35mm (53mm eq.)".to_string()));
    assert_eq!(rows[3], ("Aperture", "f/2.8".to_string()));
    assert_eq!(rows[4], ("Shutter", "1/250".to_string()));
    assert_eq!(rows[5], ("ISO", "ISO 400".to_string()));
    assert_eq!(rows[6], ("Captured", "2026:01:02 10:11:12".to_string()));
    assert_eq!(rows[7], ("Size", "6000 × 4000".to_string()));
    assert_eq!(rows[8], ("Zoom", "100%".to_string()));
}

#[test]
fn format_rows_empty_or_none() {
    let rows = format_info_rows(None);
    assert_eq!(rows.len(), 9);
    for (_label, val) in rows {
        assert_eq!(val, "-");
    }
}

#[test]
fn format_rows_show_a_dash_for_unknown_facts() {
    let mut f = facts();
    f.lens = String::new();
    f.shutter = String::new();
    let rows = format_info_rows(Some(&f));
    assert_eq!(rows[1], ("Lens", "-".to_string()));
    assert_eq!(rows[4], ("Shutter", "-".to_string()));
    assert_eq!(rows[0], ("Camera", "FUJIFILM X-T5".to_string()));
}

#[test]
fn toggle_state_logic() {
    let mut show_info_panel = false;
    toggle_info_panel(&mut show_info_panel);
    assert!(show_info_panel);
    toggle_info_panel(&mut show_info_panel);
    assert!(!show_info_panel);
}

#[test]
fn info_tab_identity() {
    assert_eq!(InfoTab.id(), TabId("info"));
    assert_eq!(InfoTab.label(), "Info");
}

#[test]
fn base_tabs_returns_three_tabs_with_correct_ids_and_labels() {
    let tabs = base_tabs();
    assert_eq!(tabs.len(), 3);
    assert_eq!(tabs[0].id(), TabId("light"));
    assert_eq!(tabs[0].label(), "Light");
    assert_eq!(tabs[1].id(), TabId("color"));
    assert_eq!(tabs[1].label(), "Color");
    assert_eq!(tabs[2].id(), TabId("effects"));
    assert_eq!(tabs[2].label(), "Effects");
}

#[test]
fn adjustment_id_equality_is_by_name() {
    assert_eq!(AdjustmentId("exposure"), AdjustmentId("exposure"));
    assert_ne!(AdjustmentId("exposure"), AdjustmentId("contrast"));
}

#[test]
fn component_label_covers_all_variants() {
    assert_eq!(component_label(&MaskComponentKind::Brush), "Brush");
    assert_eq!(component_label(&MaskComponentKind::LinearGradient), "Linear gradient");
    assert_eq!(component_label(&MaskComponentKind::RadialGradient), "Radial gradient");
    assert_eq!(component_label(&MaskComponentKind::LumaRange), "Luminance range");
    assert_eq!(component_label(&MaskComponentKind::ColorRange), "Color range");
    assert_eq!(component_label(&MaskComponentKind::Imported), "Imported");
}

#[test]
fn every_component_type_is_editable() {
    assert!(is_editable(&MaskComponentKind::LumaRange));
    assert!(is_editable(&MaskComponentKind::ColorRange));
    assert!(is_editable(&MaskComponentKind::Brush));
    assert!(is_editable(&MaskComponentKind::LinearGradient));
    assert!(is_editable(&MaskComponentKind::RadialGradient));
    // The imported/AI seam is NOT hand-editable.
    assert!(!is_editable(&MaskComponentKind::Imported));
}

#[test]
fn viewer_and_canvas_state_start_out_clean() {
    let _v = Viewer::new(42);
    assert!(!ViewerCanvasState::default().crop_active_prev);
}

use ferrolite_app::scope::{readiness, EditScope, ScopeReadiness, MASK_NONE_HINT};

fn exposure_readiness() -> ScopeReadiness {
    ScopeReadiness {
        global_ready: true,
        mask_ready: false,
        global_reason: "",
        mask_reason: "Not available on masks yet",
    }
}

#[test]
fn readiness_uses_scope_specific_ready_and_reason() {
    let spec = exposure_readiness();
    assert_eq!(readiness(EditScope::Global, &spec), (true, ""));
    assert_eq!(readiness(EditScope::Mask(0), &spec), (false, "Not available on masks yet"));
}

#[test]
fn mask_none_is_always_disabled_regardless_of_spec_readiness() {
    let mut spec = exposure_readiness();
    spec.mask_ready = true;
    assert_eq!(readiness(EditScope::MaskNone, &spec), (false, "Create or select a mask first"));
    assert_eq!(MASK_NONE_HINT, "Create or select a mask first");
}

use ferrolite_app::crop::{aspect_fraction, normalized_aspect_fraction, Aspect};

#[test]
fn aspect_fraction_maps_presets() {
    assert_eq!(aspect_fraction(Aspect::Free, 6000, 4000), None);
    assert_eq!(aspect_fraction(Aspect::Square, 6000, 4000), Some((1, 1)));
    assert_eq!(aspect_fraction(Aspect::ThreeTwo, 6000, 4000), Some((3, 2)));
    assert_eq!(aspect_fraction(Aspect::SixteenNine, 6000, 4000), Some((16, 9)));
    assert_eq!(aspect_fraction(Aspect::Original, 6000, 4000), Some((6000, 4000)));
    assert_eq!(aspect_fraction(Aspect::Original, 6000, 0), None);
    assert_eq!(aspect_fraction(Aspect::FourFive, 1, 1), Some((4, 5)));
}

#[test]
fn portrait_presets_are_reciprocals_of_landscape_ones() {
    for (portrait, landscape) in [
        (Aspect::ThreeFour, Aspect::FourThree),
        (Aspect::TwoThree, Aspect::ThreeTwo),
        (Aspect::NineSixteen, Aspect::SixteenNine),
        (Aspect::FourFive, Aspect::FiveFour),
    ] {
        let (a, b) = aspect_fraction(landscape, 6000, 4000).unwrap();
        assert_eq!(aspect_fraction(portrait, 6000, 4000), Some((b, a)));
    }
}

#[test]
fn normalized_aspect_converts_by_source_shape() {
    // 3:2 on a 6000x4000 source is the full frame: 3*4000 : 2*6000.
    assert_eq!(normalized_aspect_fraction(Aspect::ThreeTwo, 6000, 4000), Some((12000, 12000)));
    assert_eq!(normalized_aspect_fraction(Aspect::Original, 6000, 4000), Some((24_000_000, 24_000_000)));
    assert_eq!(normalized_aspect_fraction(Aspect::Square, 0, 4000), None);
    assert_eq!(normalized_aspect_fraction(Aspect::Free, 6000, 4000), None);
    assert_eq!(
        normalized_aspect_fraction(Aspect::Original, u32::MAX, u32::MAX),
        Some((u32::MAX as u64 * u32::MAX as u64, u32::MAX as u64 * u32::MAX as u64))
    );
}
