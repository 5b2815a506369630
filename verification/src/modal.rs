//! Which pending dialogs suppress global shortcut dispatch.
use vstd::prelude::*;

verus! {

/// Whether any modal dialog is pending, which suppresses every global
/// keyboard shortcut (most importantly the group dialog, which holds a
/// free-text field that would otherwise fire single-key shortcuts).
pub fn any_modal_pending(
    show_help: bool,
    show_settings: bool,
    pending_remove: bool,
    open_group_modal: bool,
    pending_rename_preset: bool,
    pending_delete_preset: bool,
) -> (pending: bool)
    ensures
        pending == (show_help || show_settings || pending_remove || open_group_modal
            || pending_rename_preset || pending_delete_preset),
{
    show_help || show_settings || pending_remove || open_group_modal || pending_rename_preset
        || pending_delete_preset
}

} // verus!
