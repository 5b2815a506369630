use ferrolite_app::chrome::Module;
use ferrolite_app::shortcuts::{
    shortcut_commands, FlagKey, KeyIntent, ShortcutCmd, ShortcutKeys, ShortcutState, Step, ToolId,
};

fn no_keys() -> ShortcutKeys {
    ShortcutKeys {
        close_viewer: false,
        open_image: false,
        open_help: false,
        open_settings: false,
        select_all: false,
        undo: false,
        redo: false,
        ctrl_y: false,
        rating: [false; 6],
        pick: false,
        reject: false,
        add_to_queue: false,
        next_image: false,
        prev_image: false,
        hold_before: false,
        toggle_split: false,
        tool_adjust: false,
        tool_crop: false,
        tool_mask: false,
        toggle_mask_overlay: false,
        new_brush_layer: false,
        zoom_fit: false,
        zoom_actual: false,
    }
}

fn develop(image: i64) -> ShortcutState {
    ShortcutState {
        module: Module::Develop,
        viewer_image: Some(image),
        before_after: false,
        crop_tool_active: false,
        crop_drag_live: false,
        batch_undo_pending: false,
        selected: Some(image),
        selected_in_set: true,
        text_focus: false,
        mask_active: false,
        mask_selected: false,
    }
}

fn library(selected: Option<i64>) -> ShortcutState {
    ShortcutState {
        module: Module::Library,
        viewer_image: None,
        selected,
        ..develop(0)
    }
}

#[test]
fn escape_closes_the_viewer() {
    let keys = ShortcutKeys { close_viewer: true, ..no_keys() };
    assert_eq!(shortcut_commands(develop(7), keys), vec![ShortcutCmd::CloseViewer]);
}

#[test]
fn escape_during_a_live_crop_drag_does_not_close_the_viewer() {
    let st = ShortcutState { crop_tool_active: true, crop_drag_live: true, ..develop(7) };
    let keys = ShortcutKeys { close_viewer: true, ..no_keys() };
    assert!(shortcut_commands(st, keys).is_empty());
}

#[test]
fn stale_crop_drag_under_another_tool_does_not_block_escape() {
    let st = ShortcutState { crop_tool_active: false, crop_drag_live: true, ..develop(7) };
    let keys = ShortcutKeys { close_viewer: true, ..no_keys() };
    assert_eq!(shortcut_commands(st, keys), vec![ShortcutCmd::CloseViewer]);
}

#[test]
fn closing_then_library_shortcuts_see_no_viewer() {
    // Escape and Ctrl+Z in one frame with a batch snapshot pending: once the
    // viewer is closed, Undo reverts the batch.
    let st = ShortcutState { batch_undo_pending: true, ..develop(7) };
    let keys = ShortcutKeys { close_viewer: true, undo: true, ..no_keys() };
    assert_eq!(
        shortcut_commands(st, keys),
        vec![ShortcutCmd::CloseViewer, ShortcutCmd::BatchUndo]
    );
}

#[test]
fn enter_opens_the_selection_and_develop_shortcuts_follow() {
    let keys = ShortcutKeys { open_image: true, zoom_fit: true, ..no_keys() };
    assert_eq!(
        shortcut_commands(library(Some(3)), keys),
        vec![ShortcutCmd::OpenImage(3), ShortcutCmd::ZoomFit]
    );
    let outside = ShortcutState { selected_in_set: false, ..library(Some(3)) };
    assert!(shortcut_commands(outside, keys).is_empty());
}

#[test]
fn text_focus_blocks_everything_but_escape() {
    let st = ShortcutState { text_focus: true, ..library(Some(3)) };
    let keys = ShortcutKeys {
        open_image: true,
        open_help: true,
        select_all: true,
        pick: true,
        ..no_keys()
    };
    assert!(shortcut_commands(st, keys).is_empty());
}

#[test]
fn library_metadata_targets_the_selection() {
    let mut rating = [false; 6];
    rating[4] = true;
    let keys = ShortcutKeys { rating, pick: true, add_to_queue: true, select_all: true, ..no_keys() };
    assert_eq!(
        shortcut_commands(library(Some(9)), keys),
        vec![
            ShortcutCmd::ToggleSelectAll,
            ShortcutCmd::Metadata { target: 9, intent: KeyIntent::Rating(4) },
            ShortcutCmd::ToggleQueue(9),
        ]
    );
    assert!(shortcut_commands(library(None), ShortcutKeys { pick: true, ..no_keys() }).is_empty());
}

#[test]
fn develop_shortcuts_in_order() {
    let st = ShortcutState { mask_active: true, mask_selected: true, ..develop(5) };
    let keys = ShortcutKeys {
        reject: true,
        next_image: true,
        prev_image: true,
        hold_before: true,
        ctrl_y: true,
        toggle_split: true,
        tool_crop: true,
        tool_mask: true,
        toggle_mask_overlay: true,
        new_brush_layer: true,
        zoom_actual: true,
        ..no_keys()
    };
    assert_eq!(
        shortcut_commands(st, keys),
        vec![
            ShortcutCmd::Metadata { target: 5, intent: KeyIntent::Flag(FlagKey::Reject) },
            ShortcutCmd::Navigate(Step::Next),
            ShortcutCmd::SetBeforeAfter(true),
            ShortcutCmd::HistoryStep(false),
            ShortcutCmd::ToggleSplitCompare,
            ShortcutCmd::SelectTool(ToolId::Crop),
            ShortcutCmd::ToggleMaskOverlay,
            ShortcutCmd::NewBrushLayer,
            ShortcutCmd::ZoomActual,
        ]
    );
}

#[test]
fn develop_undo_never_reaches_the_batch_snapshot() {
    let st = ShortcutState { batch_undo_pending: true, ..develop(5) };
    let keys = ShortcutKeys { undo: true, ..no_keys() };
    assert_eq!(shortcut_commands(st, keys), vec![ShortcutCmd::HistoryStep(true)]);
}

#[test]
fn releasing_the_before_peek_restores_the_live_stack() {
    let st = ShortcutState { before_after: true, ..develop(5) };
    assert_eq!(shortcut_commands(st, no_keys()), vec![ShortcutCmd::SetBeforeAfter(false)]);
}
