use ferrolite_app::chrome::{command, MenuAction, Module, ViewportCmd, WindowAction, VERSION_STRING};
use ferrolite_app::modal::any_modal_pending;
use ferrolite_app::shortcuts::should_route_undo_to_batch;

#[test]
fn any_modal_pending_is_false_only_when_every_flag_is_clear() {
    assert!(!any_modal_pending(false, false, false, false, false, false));
    assert!(any_modal_pending(true, false, false, false, false, false));
    assert!(any_modal_pending(false, true, false, false, false, false));
    assert!(any_modal_pending(false, false, true, false, false, false));
    assert!(
        any_modal_pending(false, false, false, true, false, false),
        "open_group_modal must suppress shortcut dispatch — it holds a text field"
    );
    assert!(any_modal_pending(false, false, false, false, true, false));
    assert!(any_modal_pending(false, false, false, false, false, true));
}

/// No Develop session open and a batch snapshot pending: Undo must route to
/// the batch revert.
#[test]
fn routes_to_batch_when_no_viewer_and_snapshot_pending() {
    assert!(should_route_undo_to_batch(false, true));
}

/// No Develop session, but nothing to undo: must not route.
#[test]
fn does_not_route_when_no_viewer_and_no_snapshot() {
    assert!(!should_route_undo_to_batch(false, false));
}

/// A Develop session IS open: Undo never routes to the batch snapshot.
#[test]
fn never_routes_to_batch_while_a_develop_session_is_open() {
    assert!(!should_route_undo_to_batch(true, true));
    assert!(!should_route_undo_to_batch(true, false));
}

#[test]
fn titlebar_version_string() {
    assert_eq!(VERSION_STRING, "v0.1.2");
}

#[test]
fn minimize_maps_to_minimized_true() {
    assert!(matches!(command(WindowAction::Minimize, false), ViewportCmd::Minimized(true)));
}

#[test]
fn close_maps_to_close() {
    assert!(matches!(command(WindowAction::Close, true), ViewportCmd::Close));
}

#[test]
fn toggle_maximize_flips_both_states() {
    assert!(matches!(command(WindowAction::ToggleMaximize, false), ViewportCmd::Maximized(true)));
    assert!(matches!(command(WindowAction::ToggleMaximize, true), ViewportCmd::Maximized(false)));
}

#[test]
fn minimize_ignores_the_maximized_state() {
    assert_eq!(command(WindowAction::Minimize, true), ViewportCmd::Minimized(true));
    assert_eq!(command(WindowAction::Close, false), ViewportCmd::Close);
}

#[test]
fn default_module_is_the_library() {
    assert_eq!(Module::default(), Module::Library);
    assert!(Module::Library.is_library());
    assert!(!Module::Develop.is_library());
    assert!(!Module::Export.is_library());
    assert_ne!(MenuAction::SwitchModule(Module::Develop), MenuAction::SwitchModule(Module::Export));
}

use ferrolite_app::coverage::FileKind;
use ferrolite_app::crop::CursorKind;
use ferrolite_app::shortcuts::{
    edit_menu_can_undo, export_enabled, key_intent, metadata_target, nav_step,
    queue_toggle_message, resize_edge, tool_switch, FlagKey, KeyIntent, ResizeEdge, Step, ToolId,
};

#[test]
fn edit_menu_undo_follows_the_batch_rule() {
    assert!(edit_menu_can_undo(Some(true), false));
    assert!(!edit_menu_can_undo(Some(false), true));
    assert!(edit_menu_can_undo(None, true));
    assert!(!edit_menu_can_undo(None, false));
    for pending in [false, true] {
        if should_route_undo_to_batch(false, pending) {
            assert!(edit_menu_can_undo(None, pending));
        }
    }
}

#[test]
fn export_needs_a_full_resolution_source() {
    assert!(export_enabled(FileKind::Raw, true, false));
    assert!(!export_enabled(FileKind::Raw, false, true));
    assert!(export_enabled(FileKind::Standard, false, true));
    assert!(!export_enabled(FileKind::Standard, false, false));
}

#[test]
fn metadata_shortcuts_target_selection_or_open_image() {
    assert_eq!(metadata_target(Module::Library, None, Some(3)), Some(3));
    assert_eq!(metadata_target(Module::Library, Some(9), Some(3)), Some(9));
    assert_eq!(metadata_target(Module::Develop, Some(9), Some(3)), Some(9));
    assert_eq!(metadata_target(Module::Develop, None, Some(3)), None);
}

#[test]
fn lowest_rating_key_wins_then_pick_then_reject() {
    let none = [false; 6];
    assert_eq!(key_intent(&none, false, false), None);
    assert_eq!(key_intent(&none, true, true), Some(KeyIntent::Flag(FlagKey::Pick)));
    assert_eq!(key_intent(&none, false, true), Some(KeyIntent::Flag(FlagKey::Reject)));
    let mut r = [false; 6];
    r[4] = true;
    r[2] = true;
    assert_eq!(key_intent(&r, true, false), Some(KeyIntent::Rating(2)));
    let mut z = [false; 6];
    z[0] = true;
    assert_eq!(key_intent(&z, false, false), Some(KeyIntent::Rating(0)));
}

#[test]
fn queue_toast_text() {
    assert_eq!(queue_toggle_message(true), "Removed from export queue.");
    assert_eq!(queue_toggle_message(false), "Added to export queue.");
}

#[test]
fn navigation_and_tool_priorities() {
    assert_eq!(nav_step(true, true), Some(Step::Next));
    assert_eq!(nav_step(false, true), Some(Step::Prev));
    assert_eq!(nav_step(false, false), None);
    assert_eq!(tool_switch(true, true, true), Some(ToolId::Adjust));
    assert_eq!(tool_switch(false, true, true), Some(ToolId::Crop));
    assert_eq!(tool_switch(false, false, true), Some(ToolId::Mask));
    assert_eq!(tool_switch(false, false, false), None);
}

#[test]
fn window_edges_resize_corners_first() {
    assert_eq!(resize_edge(false, true, true), Some((ResizeEdge::SouthEast, CursorKind::ResizeNwSe)));
    assert_eq!(resize_edge(true, false, true), Some((ResizeEdge::SouthWest, CursorKind::ResizeNeSw)));
    assert_eq!(resize_edge(false, true, false), Some((ResizeEdge::East, CursorKind::ResizeHorizontal)));
    assert_eq!(resize_edge(true, false, false), Some((ResizeEdge::West, CursorKind::ResizeHorizontal)));
    assert_eq!(resize_edge(false, false, true), Some((ResizeEdge::South, CursorKind::ResizeVertical)));
    assert_eq!(resize_edge(false, false, false), None);
}
