//! Routing decisions behind the keyboard shortcuts and the Edit/Photo
//! menus: which undo target a keypress reaches, which image a metadata
//! shortcut edits, which intent wins when several keys are down, and which
//! window edge a pointer press resizes.
use vstd::prelude::*;
use crate::chrome::Module;
use crate::coverage::FileKind;
use crate::crop::CursorKind;

verus! {

/// The undo-routing rule: no Develop session and a pending batch snapshot.
pub open spec fn routes_to_batch(viewer_open: bool, batch_undo_pending: bool) -> bool {
    !viewer_open && batch_undo_pending
}

/// The Edit menu's Undo rule: the open session can undo (`None` when no
/// session is open), or no session is open and a batch snapshot is pending.
pub open spec fn menu_can_undo(viewer_can_undo: Option<bool>, batch_undo_pending: bool) -> bool {
    viewer_can_undo == Some(true) || (viewer_can_undo is None && batch_undo_pending)
}

/// Whether an Undo keypress should route to the pending batch-apply
/// snapshot rather than the Develop session's per-image history.
///
/// True exactly when no Develop session is open and a batch-undo snapshot
/// is pending.
pub fn should_route_undo_to_batch(viewer_open: bool, batch_undo_pending: bool) -> (route: bool)
    ensures
        route == routes_to_batch(viewer_open, batch_undo_pending),
{
    !viewer_open && batch_undo_pending
}

/// Whether the Edit menu's Undo item is enabled: the open Develop session
/// can undo (`viewer_can_undo` is `None` when no session is open), or no
/// session is open and a batch-apply snapshot is pending.
pub fn edit_menu_can_undo(viewer_can_undo: Option<bool>, batch_undo_pending: bool) -> (b: bool)
    ensures
        b == menu_can_undo(viewer_can_undo, batch_undo_pending),
{
    match viewer_can_undo {
        Some(c) => c,
        None => batch_undo_pending,
    }
}

/// Whenever Undo routes to the batch snapshot, the Edit menu's Undo item is
/// enabled too: the keyboard path and the menu follow one rule.
pub proof fn lemma_batch_route_implies_menu_undo(viewer_can_undo: Option<bool>, batch_undo_pending: bool)
    ensures
        routes_to_batch(viewer_can_undo is Some, batch_undo_pending) ==> menu_can_undo(
            viewer_can_undo,
            batch_undo_pending,
        ),
{
}

/// Whether the open image can be exported: a RAW once its full-resolution
/// pyramid exists, a standard raster once its (already full-resolution)
/// preview source is retained.
pub fn export_enabled(kind: FileKind, has_pyramid: bool, has_preview_source: bool) -> (b: bool)
    ensures
        b == (has_pyramid || (kind != FileKind::Raw && has_preview_source)),
{
    has_pyramid || (match kind {
        FileKind::Raw => false,
        FileKind::Standard => has_preview_source,
    })
}

/// The image a metadata shortcut (rating, flag, export queue) edits: the
/// grid selection in the Library with no viewer open, otherwise the open
/// viewer's image.
pub fn metadata_target(module: Module, viewer_image: Option<i64>, selected: Option<i64>) -> (t:
    Option<i64>)
    ensures
        t == (if module == Module::Library && viewer_image is None {
            selected
        } else {
            viewer_image
        }),
{
    if module.is_library() && viewer_image.is_none() {
        selected
    } else {
        viewer_image
    }
}

/// A flag a shortcut sets.
#[derive(Clone, Copy, Debug, PartialEq, Eq, Structural)]
pub enum FlagKey {
    Pick,
    Reject,
}

/// The metadata edit a keypress asks for.
#[derive(Clone, Copy, Debug, PartialEq, Eq, Structural)]
pub enum KeyIntent {
    Rating(u8),
    Flag(FlagKey),
}

/// The first pressed rating key (0 through 5) in `pressed`, if any.
pub open spec fn first_pressed(pressed: Seq<bool>, from: int) -> Option<int>
    decreases pressed.len() - from,
{
    if from >= pressed.len() || from < 0 {
        None
    } else if pressed[from] {
        Some(from)
    } else {
        first_pressed(pressed, from + 1)
    }
}

/// One metadata intent per frame: the lowest pressed rating key wins, then
/// Pick, then Reject.
pub fn key_intent(rating_pressed: &[bool; 6], pick: bool, reject: bool) -> (k: Option<KeyIntent>)
    ensures
        k == (match first_pressed(rating_pressed@, 0) {
            Some(n) => Some(KeyIntent::Rating(n as u8)),
            None => if pick {
                Some(KeyIntent::Flag(FlagKey::Pick))
            } else if reject {
                Some(KeyIntent::Flag(FlagKey::Reject))
            } else {
                None
            },
        }),
{
    let mut n: usize = 0;
    while n < 6
        invariant
            n <= 6,
            rating_pressed@.len() == 6,
            first_pressed(rating_pressed@, 0) == first_pressed(rating_pressed@, n as int),
        decreases 6 - n,
    {
        if rating_pressed[n] {
            return Some(KeyIntent::Rating(n as u8));
        }
        n = n + 1;
    }
    if pick {
        Some(KeyIntent::Flag(FlagKey::Pick))
    } else if reject {
        Some(KeyIntent::Flag(FlagKey::Reject))
    } else {
        None
    }
}

/// The toast shown after the export-queue shortcut toggles an image.
pub fn queue_toggle_message(was_queued: bool) -> (m: &'static str)
    ensures
        m@ == (if was_queued {
            "Removed from export queue."@
        } else {
            "Added to export queue."@
        }),
{
    if was_queued {
        "Removed from export queue."
    } else {
        "Added to export queue."
    }
}

/// A step through the image set.
#[derive(Clone, Copy, Debug, PartialEq, Eq, Structural)]
pub enum Step {
    Prev,
    Next,
}

/// Left/Right navigation: Next wins when both keys are down.
pub fn nav_step(next: bool, prev: bool) -> (s: Option<Step>)
    ensures
        s == (if next {
            Some(Step::Next)
        } else if prev {
            Some(Step::Prev)
        } else {
            None
        }),
{
    if next {
        Some(Step::Next)
    } else if prev {
        Some(Step::Prev)
    } else {
        None
    }
}

/// The canvas tools of the Develop palette.
#[derive(Clone, Copy, Debug, PartialEq, Eq, Structural)]
pub enum ToolId {
    Adjust,
    Crop,
    Mask,
}

/// Tool-switch keys: Adjust wins over Crop, which wins over Mask.
pub fn tool_switch(adjust: bool, crop: bool, mask: bool) -> (t: Option<ToolId>)
    ensures
        t == (if adjust {
            Some(ToolId::Adjust)
        } else if crop {
            Some(ToolId::Crop)
        } else if mask {
            Some(ToolId::Mask)
        } else {
            None
        }),
{
    if adjust {
        Some(ToolId::Adjust)
    } else if crop {
        Some(ToolId::Crop)
    } else if mask {
        Some(ToolId::Mask)
    } else {
        None
    }
}

/// Which way a press on a window edge resizes the borderless window.
#[derive(Clone, Copy, Debug, PartialEq, Eq, Structural)]
pub enum ResizeEdge {
    SouthEast,
    SouthWest,
    East,
    West,
    South,
}

/// The resize direction and cursor for a pointer in the left / right /
/// bottom edge bands (corners first), or `None` away from every edge.
pub fn resize_edge(left: bool, right: bool, bottom: bool) -> (e: Option<(ResizeEdge, CursorKind)>)
    ensures
        e == (if bottom && right {
            Some((ResizeEdge::SouthEast, CursorKind::ResizeNwSe))
        } else if bottom && left {
            Some((ResizeEdge::SouthWest, CursorKind::ResizeNeSw))
        } else if right {
            Some((ResizeEdge::East, CursorKind::ResizeHorizontal))
        } else if left {
            Some((ResizeEdge::West, CursorKind::ResizeHorizontal))
        } else if bottom {
            Some((ResizeEdge::South, CursorKind::ResizeVertical))
        } else {
            None
        }),
{
    if bottom && right {
        Some((ResizeEdge::SouthEast, CursorKind::ResizeNwSe))
    } else if bottom && left {
        Some((ResizeEdge::SouthWest, CursorKind::ResizeNeSw))
    } else if right {
        Some((ResizeEdge::East, CursorKind::ResizeHorizontal))
    } else if left {
        Some((ResizeEdge::West, CursorKind::ResizeHorizontal))
    } else if bottom {
        Some((ResizeEdge::South, CursorKind::ResizeVertical))
    } else {
        None
    }
}

/// What the shortcut dispatcher reads of the app at the start of a frame.
#[derive(Clone, Copy, Debug, PartialEq, Eq, Structural)]
pub struct ShortcutState {
    /// The active module.
    pub module: Module,
    /// The image open in the viewer, if any.
    pub viewer_image: Option<i64>,
    /// Whether the open viewer currently shows the before (empty) stack.
    pub before_after: bool,
    /// Whether the Crop tool is the active Develop tool.
    pub crop_tool_active: bool,
    /// Whether a crop handle drag is in progress.
    pub crop_drag_live: bool,
    /// Whether a batch-apply undo snapshot is pending.
    pub batch_undo_pending: bool,
    /// The grid selection, if any.
    pub selected: Option<i64>,
    /// Whether the selected image is in the current image set (so it can be
    /// opened).
    pub selected_in_set: bool,
    /// Whether a text field holds keyboard focus.
    pub text_focus: bool,
    /// Whether the open viewer is in mask mode.
    pub mask_active: bool,
    /// Whether a mask is selected in the open viewer.
    pub mask_selected: bool,
}

/// The shortcut chords pressed this frame (`hold_before` is held, not
/// pressed).
#[derive(Clone, Copy, Debug)]
pub struct ShortcutKeys {
    pub close_viewer: bool,
    pub open_image: bool,
    pub open_help: bool,
    pub open_settings: bool,
    pub select_all: bool,
    pub undo: bool,
    pub redo: bool,
    /// The Ctrl+Y alias of Redo.
    pub ctrl_y: bool,
    pub rating: [bool; 6],
    pub pick: bool,
    pub reject: bool,
    pub add_to_queue: bool,
    pub next_image: bool,
    pub prev_image: bool,
    pub hold_before: bool,
    pub toggle_split: bool,
    pub tool_adjust: bool,
    pub tool_crop: bool,
    pub tool_mask: bool,
    pub toggle_mask_overlay: bool,
    pub new_brush_layer: bool,
    pub zoom_fit: bool,
    pub zoom_actual: bool,
}

/// A command the dispatcher asks the app to perform, in order.
#[derive(Clone, Copy, Debug, PartialEq, Eq, Structural)]
pub enum ShortcutCmd {
    /// Leave the viewer (regenerate the thumbnail, cancel its jobs, return to
    /// the Library).
    CloseViewer,
    /// Open this image in the viewer (and switch to Develop).
    OpenImage(i64),
    OpenHelp,
    OpenSettings,
    ToggleSelectAll,
    /// Revert the pending batch apply.
    BatchUndo,
    /// Toggle a rating or flag on this image.
    Metadata { target: i64, intent: KeyIntent },
    /// Toggle this image's export-queue membership.
    ToggleQueue(i64),
    Navigate(Step),
    /// Show the before stack (`true`) or the live one.
    SetBeforeAfter(bool),
    /// Step the viewer's edit history: undo when `true`, else redo.
    HistoryStep(bool),
    ToggleSplitCompare,
    SelectTool(ToolId),
    ToggleMaskOverlay,
    NewBrushLayer,
    ZoomFit,
    ZoomActual,
}

/// Escape closes the viewer unless a crop handle drag is live with the Crop
/// tool active (then Escape belongs to the drag's cancel).
pub open spec fn closes_viewer(st: ShortcutState, k: ShortcutKeys) -> bool {
    k.close_viewer && !(st.crop_tool_active && st.crop_drag_live)
}

/// The state the later shortcuts see after the close step.
pub open spec fn after_close(st: ShortcutState, k: ShortcutKeys) -> ShortcutState {
    if closes_viewer(st, k) && st.viewer_image is Some {
        ShortcutState { viewer_image: None, module: Module::Library, ..st }
    } else {
        st
    }
}

/// Enter opens the selected image: Library, no viewer, no text focus, and a
/// selection that is in the image set.
pub open spec fn opens_image(st: ShortcutState, k: ShortcutKeys) -> bool {
    &&& st.module == Module::Library
    &&& st.viewer_image is None
    &&& !st.text_focus
    &&& k.open_image
    &&& st.selected is Some
    &&& st.selected_in_set
}

/// The state the later shortcuts see after the open step.
pub open spec fn after_open(st: ShortcutState, k: ShortcutKeys) -> ShortcutState {
    if opens_image(st, k) {
        ShortcutState { viewer_image: st.selected, module: Module::Develop, ..st }
    } else {
        st
    }
}

/// `s` followed by `c` when `b`.
pub open spec fn add_if(s: Seq<ShortcutCmd>, b: bool, c: ShortcutCmd) -> Seq<ShortcutCmd> {
    if b {
        s.push(c)
    } else {
        s
    }
}

/// Help, Settings, select-all and the batch undo appended to `s`, given the
/// state after the close and open steps.
pub open spec fn global_onto(s: Seq<ShortcutCmd>, st: ShortcutState, k: ShortcutKeys) -> Seq<
    ShortcutCmd,
> {
    let s = add_if(s, !st.text_focus && k.open_help, ShortcutCmd::OpenHelp);
    let s = add_if(s, !st.text_focus && k.open_settings, ShortcutCmd::OpenSettings);
    let s = add_if(
        s,
        st.module == Module::Library && st.viewer_image is None && !st.text_focus && k.select_all,
        ShortcutCmd::ToggleSelectAll,
    );
    add_if(
        s,
        !st.text_focus && routes_to_batch(st.viewer_image is Some, st.batch_undo_pending) && k.undo,
        ShortcutCmd::BatchUndo,
    )
}

/// The metadata target of the frame (see [`metadata_target`]).
pub open spec fn target_of(st: ShortcutState) -> Option<i64> {
    if st.module == Module::Library && st.viewer_image is None {
        st.selected
    } else {
        st.viewer_image
    }
}

/// The metadata intent of the frame (see [`key_intent`]).
pub open spec fn intent_of(k: ShortcutKeys) -> Option<KeyIntent> {
    match first_pressed(k.rating@, 0) {
        Some(n) => Some(KeyIntent::Rating(n as u8)),
        None => if k.pick {
            Some(KeyIntent::Flag(FlagKey::Pick))
        } else if k.reject {
            Some(KeyIntent::Flag(FlagKey::Reject))
        } else {
            None
        },
    }
}

/// Rating, flag and export-queue toggles on the frame's target image,
/// appended to `s`.
pub open spec fn metadata_onto(s: Seq<ShortcutCmd>, st: ShortcutState, k: ShortcutKeys) -> Seq<
    ShortcutCmd,
> {
    if st.text_focus {
        s
    } else {
        match target_of(st) {
            Some(target) => {
                let s = match intent_of(k) {
                    Some(intent) => s.push(ShortcutCmd::Metadata { target, intent }),
                    None => s,
                };
                add_if(s, k.add_to_queue, ShortcutCmd::ToggleQueue(target))
            },
            None => s,
        }
    }
}

/// The navigation step the arrow keys ask for (see [`nav_step`]).
pub open spec fn step_of(k: ShortcutKeys) -> Option<Step> {
    if k.next_image {
        Some(Step::Next)
    } else if k.prev_image {
        Some(Step::Prev)
    } else {
        None
    }
}

/// The tool the tool keys ask for (see [`tool_switch`]).
pub open spec fn tool_of(k: ShortcutKeys) -> Option<ToolId> {
    if k.tool_adjust {
        Some(ToolId::Adjust)
    } else if k.tool_crop {
        Some(ToolId::Crop)
    } else if k.tool_mask {
        Some(ToolId::Mask)
    } else {
        None
    }
}

/// Navigation, before/after, undo/redo and split compare appended to `s`.
pub open spec fn view_onto(s: Seq<ShortcutCmd>, st: ShortcutState, k: ShortcutKeys) -> Seq<
    ShortcutCmd,
> {
    let s = match step_of(k) {
        Some(d) => s.push(ShortcutCmd::Navigate(d)),
        None => s,
    };
    let s = add_if(s, st.before_after != k.hold_before, ShortcutCmd::SetBeforeAfter(k.hold_before));
    let s = add_if(s, k.undo || k.redo || k.ctrl_y, ShortcutCmd::HistoryStep(k.undo));
    add_if(s, k.toggle_split, ShortcutCmd::ToggleSplitCompare)
}

/// Tool switch, mask overlay, new brush layer and zoom appended to `s`.
pub open spec fn tool_onto(s: Seq<ShortcutCmd>, st: ShortcutState, k: ShortcutKeys) -> Seq<
    ShortcutCmd,
> {
    let s = match tool_of(k) {
        Some(t) => s.push(ShortcutCmd::SelectTool(t)),
        None => s,
    };
    let s = add_if(s, k.toggle_mask_overlay, ShortcutCmd::ToggleMaskOverlay);
    let s = add_if(
        s,
        k.new_brush_layer && st.mask_active && st.mask_selected,
        ShortcutCmd::NewBrushLayer,
    );
    let s = add_if(s, k.zoom_fit, ShortcutCmd::ZoomFit);
    add_if(s, k.zoom_actual, ShortcutCmd::ZoomActual)
}

/// The Develop viewer's shortcuts appended to `s` (Develop module, viewer
/// open, no text focus).
pub open spec fn develop_onto(s: Seq<ShortcutCmd>, st: ShortcutState, k: ShortcutKeys) -> Seq<
    ShortcutCmd,
> {
    if st.module == Module::Develop && st.viewer_image is Some && !st.text_focus {
        tool_onto(view_onto(s, st, k), st, k)
    } else {
        s
    }
}

/// The frame's commands, in the order the app performs them. Each step sees
/// the state left by the close and open steps before it.
pub open spec fn shortcut_commands_spec(st: ShortcutState, k: ShortcutKeys) -> Seq<ShortcutCmd> {
    let s1 = after_close(st, k);
    let s2 = after_open(s1, k);
    let c = add_if(Seq::empty(), closes_viewer(st, k), ShortcutCmd::CloseViewer);
    let c = add_if(c, opens_image(s1, k), ShortcutCmd::OpenImage(s1.selected.unwrap()));
    develop_onto(metadata_onto(global_onto(c, s2, k), s2, k), s2, k)
}

fn push_if(v: &mut Vec<ShortcutCmd>, b: bool, c: ShortcutCmd)
    ensures
        final(v)@ == add_if(old(v)@, b, c),
{
    if b {
        v.push(c);
    }
}

fn view_commands(v: &mut Vec<ShortcutCmd>, st: ShortcutState, k: ShortcutKeys)
    ensures
        final(v)@ == view_onto(old(v)@, st, k),
{
    match nav_step(k.next_image, k.prev_image) {
        Some(d) => v.push(ShortcutCmd::Navigate(d)),
        None => {},
    }
    push_if(v, st.before_after != k.hold_before, ShortcutCmd::SetBeforeAfter(k.hold_before));
    push_if(v, k.undo || k.redo || k.ctrl_y, ShortcutCmd::HistoryStep(k.undo));
    push_if(v, k.toggle_split, ShortcutCmd::ToggleSplitCompare);
}

fn tool_commands(v: &mut Vec<ShortcutCmd>, st: ShortcutState, k: ShortcutKeys)
    ensures
        final(v)@ == tool_onto(old(v)@, st, k),
{
    match tool_switch(k.tool_adjust, k.tool_crop, k.tool_mask) {
        Some(t) => v.push(ShortcutCmd::SelectTool(t)),
        None => {},
    }
    push_if(v, k.toggle_mask_overlay, ShortcutCmd::ToggleMaskOverlay);
    push_if(
        v,
        k.new_brush_layer && st.mask_active && st.mask_selected,
        ShortcutCmd::NewBrushLayer,
    );
    push_if(v, k.zoom_fit, ShortcutCmd::ZoomFit);
    push_if(v, k.zoom_actual, ShortcutCmd::ZoomActual);
}

fn develop_commands(v: &mut Vec<ShortcutCmd>, st: ShortcutState, k: ShortcutKeys)
    ensures
        final(v)@ == develop_onto(old(v)@, st, k),
{
    if st.module == Module::Develop && st.viewer_image.is_some() && !st.text_focus {
        view_commands(v, st, k);
        tool_commands(v, st, k);
    }
}

fn metadata_commands(v: &mut Vec<ShortcutCmd>, st: ShortcutState, k: ShortcutKeys)
    ensures
        final(v)@ == metadata_onto(old(v)@, st, k),
{
    if st.text_focus {
        return;
    }
    match metadata_target(st.module, st.viewer_image, st.selected) {
        Some(target) => {
            match key_intent(&k.rating, k.pick, k.reject) {
                Some(intent) => v.push(ShortcutCmd::Metadata { target, intent }),
                None => {},
            }
            push_if(v, k.add_to_queue, ShortcutCmd::ToggleQueue(target));
        },
        None => {},
    }
}

fn global_commands(v: &mut Vec<ShortcutCmd>, st: ShortcutState, k: ShortcutKeys)
    ensures
        final(v)@ == global_onto(old(v)@, st, k),
{
    push_if(v, !st.text_focus && k.open_help, ShortcutCmd::OpenHelp);
    push_if(v, !st.text_focus && k.open_settings, ShortcutCmd::OpenSettings);
    push_if(
        v,
        st.module.is_library() && st.viewer_image.is_none() && !st.text_focus && k.select_all,
        ShortcutCmd::ToggleSelectAll,
    );
    let route = should_route_undo_to_batch(st.viewer_image.is_some(), st.batch_undo_pending);
    push_if(v, !st.text_focus && route && k.undo, ShortcutCmd::BatchUndo);
}

/// The commands the keyboard shortcuts of one frame ask for, in order:
/// closing the viewer (Escape, unless a crop handle drag is live with the
/// Crop tool active), opening the selected image (Enter), Help, Settings,
/// select-all, the batch undo, metadata and queue toggles on the frame's
/// target image, then the Develop viewer's shortcuts.
pub fn shortcut_commands(st: ShortcutState, keys: ShortcutKeys) -> (cmds: Vec<ShortcutCmd>)
    ensures
        cmds@ == shortcut_commands_spec(st, keys),
{
    let k = keys;
    let mut v: Vec<ShortcutCmd> = Vec::new();
    let closes = k.close_viewer && !(st.crop_tool_active && st.crop_drag_live);
    push_if(&mut v, closes, ShortcutCmd::CloseViewer);
    let s1 = if closes && st.viewer_image.is_some() {
        ShortcutState { viewer_image: None, module: Module::Library, ..st }
    } else {
        st
    };
    let opens = s1.module.is_library() && s1.viewer_image.is_none() && !s1.text_focus
        && k.open_image && s1.selected.is_some() && s1.selected_in_set;
    let s2 = match s1.selected {
        Some(id) => {
            push_if(&mut v, opens, ShortcutCmd::OpenImage(id));
            if opens {
                ShortcutState { viewer_image: Some(id), module: Module::Develop, ..s1 }
            } else {
                s1
            }
        },
        None => s1,
    };
    proof {
        assert(s1 == after_close(st, k));
        assert(s2 == after_open(s1, k));
    }
    global_commands(&mut v, s2, k);
    metadata_commands(&mut v, s2, k);
    develop_commands(&mut v, s2, k);
    v
}

/// No command in `s` is `CloseViewer`.
pub open spec fn no_close(s: Seq<ShortcutCmd>) -> bool {
    forall|i: int| 0 <= i < s.len() ==> s[i] != ShortcutCmd::CloseViewer
}

proof fn lemma_onto_adds_no_close(s: Seq<ShortcutCmd>, st: ShortcutState, k: ShortcutKeys)
    requires
        no_close(s),
    ensures
        no_close(global_onto(s, st, k)),
        no_close(metadata_onto(s, st, k)),
        no_close(develop_onto(s, st, k)),
{
}

/// Escape and a live crop drag: while a crop handle drag is in progress with
/// the Crop tool active, the frame never closes the viewer; with the viewer
/// open, Escape pressed and no live crop drag, it does (as its first
/// command).
pub proof fn lemma_escape_respects_crop_drag(st: ShortcutState, k: ShortcutKeys)
    ensures
        st.crop_tool_active && st.crop_drag_live ==> !shortcut_commands_spec(st, k).contains(
            ShortcutCmd::CloseViewer,
        ),
        st.viewer_image is Some && k.close_viewer && !(st.crop_tool_active && st.crop_drag_live)
            ==> shortcut_commands_spec(st, k)[0] == ShortcutCmd::CloseViewer,
{
    let s1 = after_close(st, k);
    let s2 = after_open(s1, k);
    let c0 = add_if(Seq::empty(), closes_viewer(st, k), ShortcutCmd::CloseViewer);
    let c = add_if(c0, opens_image(s1, k), ShortcutCmd::OpenImage(s1.selected.unwrap()));
    let g = global_onto(c, s2, k);
    let m = metadata_onto(g, s2, k);
    if st.crop_tool_active && st.crop_drag_live {
        assert(no_close(c));
        lemma_onto_adds_no_close(c, s2, k);
        lemma_onto_adds_no_close(g, s2, k);
        lemma_onto_adds_no_close(m, s2, k);
    } else if k.close_viewer {
        assert(c[0] == ShortcutCmd::CloseViewer);
        lemma_prefix_kept(c, s2, k, 0);
        lemma_prefix_kept(g, s2, k, 0);
        lemma_prefix_kept(m, s2, k, 0);
    }
}

proof fn lemma_prefix_kept(s: Seq<ShortcutCmd>, st: ShortcutState, k: ShortcutKeys, i: int)
    requires
        0 <= i < s.len(),
    ensures
        global_onto(s, st, k).len() > i && global_onto(s, st, k)[i] == s[i],
        metadata_onto(s, st, k).len() > i && metadata_onto(s, st, k)[i] == s[i],
        develop_onto(s, st, k).len() > i && develop_onto(s, st, k)[i] == s[i],
{
    lemma_global_prefix(s, st, k, i);
    lemma_metadata_prefix(s, st, k, i);
    lemma_develop_prefix(s, st, k, i);
}

proof fn lemma_add_if_prefix(s: Seq<ShortcutCmd>, b: bool, c: ShortcutCmd, i: int)
    requires
        0 <= i < s.len(),
    ensures
        add_if(s, b, c).len() >= s.len(),
        add_if(s, b, c)[i] == s[i],
{
}

proof fn lemma_global_prefix(s: Seq<ShortcutCmd>, st: ShortcutState, k: ShortcutKeys, i: int)
    requires
        0 <= i < s.len(),
    ensures
        global_onto(s, st, k).len() >= s.len() && global_onto(s, st, k)[i] == s[i],
{
    let a = add_if(s, !st.text_focus && k.open_help, ShortcutCmd::OpenHelp);
    lemma_add_if_prefix(s, !st.text_focus && k.open_help, ShortcutCmd::OpenHelp, i);
    let b = add_if(a, !st.text_focus && k.open_settings, ShortcutCmd::OpenSettings);
    lemma_add_if_prefix(a, !st.text_focus && k.open_settings, ShortcutCmd::OpenSettings, i);
    let cnd = st.module == Module::Library && st.viewer_image is None && !st.text_focus
        && k.select_all;
    let c = add_if(b, cnd, ShortcutCmd::ToggleSelectAll);
    lemma_add_if_prefix(b, cnd, ShortcutCmd::ToggleSelectAll, i);
    let d = !st.text_focus && routes_to_batch(st.viewer_image is Some, st.batch_undo_pending)
        && k.undo;
    lemma_add_if_prefix(c, d, ShortcutCmd::BatchUndo, i);
}

proof fn lemma_metadata_prefix(s: Seq<ShortcutCmd>, st: ShortcutState, k: ShortcutKeys, i: int)
    requires
        0 <= i < s.len(),
    ensures
        metadata_onto(s, st, k).len() >= s.len() && metadata_onto(s, st, k)[i] == s[i],
{
    if !st.text_focus {
        if let Some(target) = target_of(st) {
            let a = match intent_of(k) {
                Some(intent) => s.push(ShortcutCmd::Metadata { target, intent }),
                None => s,
            };
            assert(a.len() >= s.len() && a[i] == s[i]);
            lemma_add_if_prefix(a, k.add_to_queue, ShortcutCmd::ToggleQueue(target), i);
        }
    }
}

proof fn lemma_develop_prefix(s: Seq<ShortcutCmd>, st: ShortcutState, k: ShortcutKeys, i: int)
    requires
        0 <= i < s.len(),
    ensures
        develop_onto(s, st, k).len() >= s.len() && develop_onto(s, st, k)[i] == s[i],
{
    lemma_view_prefix(s, st, k, i);
    lemma_tool_prefix(view_onto(s, st, k), st, k, i);
}

proof fn lemma_view_prefix(s: Seq<ShortcutCmd>, st: ShortcutState, k: ShortcutKeys, i: int)
    requires
        0 <= i < s.len(),
    ensures
        view_onto(s, st, k).len() >= s.len() && view_onto(s, st, k)[i] == s[i],
{
    let s1 = match step_of(k) {
        Some(d) => s.push(ShortcutCmd::Navigate(d)),
        None => s,
    };
    assert(s1.len() >= s.len() && s1[i] == s[i]);
    let s2 = add_if(s1, st.before_after != k.hold_before, ShortcutCmd::SetBeforeAfter(k.hold_before));
    lemma_add_if_prefix(s1, st.before_after != k.hold_before, ShortcutCmd::SetBeforeAfter(k.hold_before), i);
    let s3 = add_if(s2, k.undo || k.redo || k.ctrl_y, ShortcutCmd::HistoryStep(k.undo));
    lemma_add_if_prefix(s2, k.undo || k.redo || k.ctrl_y, ShortcutCmd::HistoryStep(k.undo), i);
    lemma_add_if_prefix(s3, k.toggle_split, ShortcutCmd::ToggleSplitCompare, i);
}

proof fn lemma_tool_prefix(s: Seq<ShortcutCmd>, st: ShortcutState, k: ShortcutKeys, i: int)
    requires
        0 <= i < s.len(),
    ensures
        tool_onto(s, st, k).len() >= s.len() && tool_onto(s, st, k)[i] == s[i],
{
    let s5 = match tool_of(k) {
        Some(t) => s.push(ShortcutCmd::SelectTool(t)),
        None => s,
    };
    assert(s5.len() >= s.len() && s5[i] == s[i]);
    let s6 = add_if(s5, k.toggle_mask_overlay, ShortcutCmd::ToggleMaskOverlay);
    lemma_add_if_prefix(s5, k.toggle_mask_overlay, ShortcutCmd::ToggleMaskOverlay, i);
    let b7 = k.new_brush_layer && st.mask_active && st.mask_selected;
    let s7 = add_if(s6, b7, ShortcutCmd::NewBrushLayer);
    lemma_add_if_prefix(s6, b7, ShortcutCmd::NewBrushLayer, i);
    let s8 = add_if(s7, k.zoom_fit, ShortcutCmd::ZoomFit);
    lemma_add_if_prefix(s7, k.zoom_fit, ShortcutCmd::ZoomFit, i);
    lemma_add_if_prefix(s8, k.zoom_actual, ShortcutCmd::ZoomActual, i);
}

/// No command in `s` equals `x`.
pub open spec fn lacks(s: Seq<ShortcutCmd>, x: ShortcutCmd) -> bool {
    forall|i: int| 0 <= i < s.len() ==> s[i] != x
}

/// Every metadata command in `s` equals `x`.
pub open spec fn metadata_only(s: Seq<ShortcutCmd>, x: ShortcutCmd) -> bool {
    forall|i: int| 0 <= i < s.len() && (s[i] is Metadata) ==> s[i] == x
}

proof fn lemma_parts_add_no_history_step(s: Seq<ShortcutCmd>, st: ShortcutState, k: ShortcutKeys, b: bool)
    requires
        lacks(s, ShortcutCmd::HistoryStep(b)),
    ensures
        lacks(global_onto(s, st, k), ShortcutCmd::HistoryStep(b)),
        lacks(metadata_onto(s, st, k), ShortcutCmd::HistoryStep(b)),
        lacks(tool_onto(s, st, k), ShortcutCmd::HistoryStep(b)),
        b != k.undo || !(k.undo || k.redo || k.ctrl_y) ==> lacks(
            view_onto(s, st, k),
            ShortcutCmd::HistoryStep(b),
        ),
{
}

proof fn lemma_parts_add_no_metadata(s: Seq<ShortcutCmd>, st: ShortcutState, k: ShortcutKeys, x: ShortcutCmd)
    requires
        metadata_only(s, x),
    ensures
        metadata_only(global_onto(s, st, k), x),
        metadata_only(view_onto(s, st, k), x),
        metadata_only(tool_onto(s, st, k), x),
{
}

/// The Undo chord steps the Develop history backward and the Redo chord
/// (or its Ctrl+Y alias) forward; with neither, no history step is taken.
/// This holds in every frame in which the Develop viewer is open, no text
/// field has focus and Escape is not pressed.
pub proof fn lemma_history_keys_pick_direction(st: ShortcutState, k: ShortcutKeys)
    requires
        st.module == Module::Develop,
        st.viewer_image is Some,
        !st.text_focus,
        !k.close_viewer,
    ensures
        k.undo ==> shortcut_commands_spec(st, k).contains(ShortcutCmd::HistoryStep(true))
            && !shortcut_commands_spec(st, k).contains(ShortcutCmd::HistoryStep(false)),
        !k.undo && (k.redo || k.ctrl_y) ==> shortcut_commands_spec(st, k).contains(
            ShortcutCmd::HistoryStep(false),
        ) && !shortcut_commands_spec(st, k).contains(ShortcutCmd::HistoryStep(true)),
        !(k.undo || k.redo || k.ctrl_y) ==> !shortcut_commands_spec(st, k).contains(
            ShortcutCmd::HistoryStep(true),
        ) && !shortcut_commands_spec(st, k).contains(ShortcutCmd::HistoryStep(false)),
{
    let s1 = after_close(st, k);
    let s2 = after_open(s1, k);
    assert(s1 == st);
    assert(s2 == st);
    let c0 = add_if(Seq::empty(), closes_viewer(st, k), ShortcutCmd::CloseViewer);
    let c = add_if(c0, opens_image(s1, k), ShortcutCmd::OpenImage(s1.selected.unwrap()));
    assert(c.len() == 0);
    let g = global_onto(c, st, k);
    let m = metadata_onto(g, st, k);
    let v = view_onto(m, st, k);
    let r = tool_onto(v, st, k);
    assert(r == shortcut_commands_spec(st, k));
    // No step in the wrong direction.
    let other = !k.undo;
    lemma_parts_add_no_history_step(c, st, k, other);
    lemma_parts_add_no_history_step(g, st, k, other);
    lemma_parts_add_no_history_step(m, st, k, other);
    lemma_parts_add_no_history_step(v, st, k, other);
    if !(k.undo || k.redo || k.ctrl_y) {
        lemma_parts_add_no_history_step(c, st, k, k.undo);
        lemma_parts_add_no_history_step(g, st, k, k.undo);
        lemma_parts_add_no_history_step(m, st, k, k.undo);
        lemma_parts_add_no_history_step(v, st, k, k.undo);
    } else {
        // The step in the right direction, and it survives the later parts.
        let a1 = match step_of(k) {
            Some(d) => m.push(ShortcutCmd::Navigate(d)),
            None => m,
        };
        let a2 = add_if(a1, st.before_after != k.hold_before, ShortcutCmd::SetBeforeAfter(k.hold_before));
        let a3 = add_if(a2, true, ShortcutCmd::HistoryStep(k.undo));
        assert(a3[a2.len() as int] == ShortcutCmd::HistoryStep(k.undo));
        lemma_add_if_prefix(a3, k.toggle_split, ShortcutCmd::ToggleSplitCompare, a2.len() as int);
        assert(v[a2.len() as int] == ShortcutCmd::HistoryStep(k.undo));
        lemma_tool_prefix(v, st, k, a2.len() as int);
        assert(r[a2.len() as int] == ShortcutCmd::HistoryStep(k.undo));
    }
}

proof fn lemma_first_pressed_six(p: Seq<bool>)
    requires
        p.len() == 6,
    ensures
        (forall|j: int| 0 <= j < 6 ==> !p[j]) ==> first_pressed(p, 0) is None,
        forall|n: int|
            0 <= n < 6 && p[n] && (forall|j: int| 0 <= j < n ==> !p[j]) ==> first_pressed(p, 0)
                == Some(n),
{
    reveal_with_fuel(first_pressed, 7);
}

/// The rating, Pick and Reject keys act on the frame's target image (the
/// grid selection in the Library with no viewer open, otherwise the open
/// image): the lowest pressed rating key sets that rating, else Pick picks,
/// else Reject rejects, and every metadata command of the frame is that one
/// edit on that image. Holds whenever no text field has focus and neither
/// Escape nor Enter is pressed.
pub proof fn lemma_metadata_keys_edit_the_target(st: ShortcutState, k: ShortcutKeys, t: i64)
    requires
        !st.text_focus,
        !k.close_viewer,
        !k.open_image,
        (st.module == Module::Library && st.viewer_image is None && st.selected == Some(t))
            || st.viewer_image == Some(t),
    ensures
        forall|n: int|
            0 <= n < 6 && k.rating@[n] && (forall|j: int| 0 <= j < n ==> !k.rating@[j])
                ==> metadata_only(
                shortcut_commands_spec(st, k),
                ShortcutCmd::Metadata { target: t, intent: KeyIntent::Rating(n as u8) },
            ) && shortcut_commands_spec(st, k).contains(
                ShortcutCmd::Metadata { target: t, intent: KeyIntent::Rating(n as u8) },
            ),
        (forall|j: int| 0 <= j < 6 ==> !k.rating@[j]) && k.pick ==> metadata_only(
            shortcut_commands_spec(st, k),
            ShortcutCmd::Metadata { target: t, intent: KeyIntent::Flag(FlagKey::Pick) },
        ) && shortcut_commands_spec(st, k).contains(
            ShortcutCmd::Metadata { target: t, intent: KeyIntent::Flag(FlagKey::Pick) },
        ),
        (forall|j: int| 0 <= j < 6 ==> !k.rating@[j]) && !k.pick && k.reject ==> metadata_only(
            shortcut_commands_spec(st, k),
            ShortcutCmd::Metadata { target: t, intent: KeyIntent::Flag(FlagKey::Reject) },
        ) && shortcut_commands_spec(st, k).contains(
            ShortcutCmd::Metadata { target: t, intent: KeyIntent::Flag(FlagKey::Reject) },
        ),
        (forall|j: int| 0 <= j < 6 ==> !k.rating@[j]) && !k.pick && !k.reject ==> forall|i: int|
            0 <= i < shortcut_commands_spec(st, k).len() ==> !(
            #[trigger] shortcut_commands_spec(st, k)[i] is Metadata),
{
    let s1 = after_close(st, k);
    let s2 = after_open(s1, k);
    assert(s1 == st);
    assert(s2 == st);
    assert(target_of(st) == Some(t));
    lemma_first_pressed_six(k.rating@);
    let c0 = add_if(Seq::empty(), closes_viewer(st, k), ShortcutCmd::CloseViewer);
    let c = add_if(c0, opens_image(s1, k), ShortcutCmd::OpenImage(s1.selected.unwrap()));
    assert(c.len() == 0);
    let g = global_onto(c, st, k);
    let m = metadata_onto(g, st, k);
    let v = view_onto(m, st, k);
    let r = tool_onto(v, st, k);
    let dev = develop_onto(m, st, k);
    assert(dev == shortcut_commands_spec(st, k));
    match intent_of(k) {
        Some(intent) => {
            let x = ShortcutCmd::Metadata { target: t, intent };
            lemma_parts_add_no_metadata(c, st, k, x);
            let a = g.push(x);
            assert(a[g.len() as int] == x);
            lemma_add_if_prefix(a, k.add_to_queue, ShortcutCmd::ToggleQueue(t), g.len() as int);
            assert(m[g.len() as int] == x);
            assert(metadata_only(m, x));
            lemma_develop_prefix(m, st, k, g.len() as int);
            if st.module == Module::Develop && st.viewer_image is Some && !st.text_focus {
                lemma_parts_add_no_metadata(m, st, k, x);
                lemma_parts_add_no_metadata(v, st, k, x);
            }
            assert(dev[g.len() as int] == x);
        },
        None => {
            let x = ShortcutCmd::ToggleQueue(t);
            lemma_parts_add_no_metadata(c, st, k, x);
            assert(metadata_only(m, x));
            if st.module == Module::Develop && st.viewer_image is Some && !st.text_focus {
                lemma_parts_add_no_metadata(m, st, k, x);
                lemma_parts_add_no_metadata(v, st, k, x);
            }
            assert(metadata_only(dev, x));
        },
    }
}

} // verus!
