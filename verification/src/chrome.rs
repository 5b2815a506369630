//! Window-chrome decisions: the app modules, the title-bar menu actions and
//! the window-control buttons' commands.
use vstd::prelude::*;

verus! {

/// Version string shown in the title bar.
pub const VERSION_STRING: &'static str = "v0.1.2";

/// The top-level app modules, switched by the title-bar tabs.
#[derive(Clone, Copy, Debug, PartialEq, Eq, Structural)]
pub enum Module {
    Library,
    Develop,
    Export,
}

impl Default for Module {
    fn default() -> (m: Self)
        ensures
            m == Module::Library,
    {
        Module::Library
    }
}

impl Module {
    pub fn is_library(self) -> (b: bool)
        ensures
            b == (self == Module::Library),
    {
        match self {
            Module::Library => true,
            _ => false,
        }
    }
}

/// A menu action selected from the title-bar menus, handled by the app.
#[derive(Debug, Clone, Copy, PartialEq, Eq, Structural)]
pub enum MenuAction {
    ExportImage,
    AddToQueue,
    PurgePreviews,
    Exit,
    Undo,
    Redo,
    SelectAll,
    PrevImage,
    NextImage,
    SwitchModule(Module),
    ToggleSplit,
    ZoomFit,
    ZoomActual,
    ToggleHistogram,
    ToggleInfoOverlay,
    ToggleToolPalette,
    OpenHelp,
    OpenSettings,
}

/// The three window-control buttons of the borderless title bar.
#[derive(Debug, Clone, Copy, PartialEq, Eq, Structural)]
pub enum WindowAction {
    Minimize,
    ToggleMaximize,
    Close,
}

/// The viewport command a window-control click sends.
#[derive(Debug, Clone, Copy, PartialEq, Eq, Structural)]
pub enum ViewportCmd {
    Minimized(bool),
    Maximized(bool),
    Close,
}

/// Map a control action to the viewport command to send: minimize, flip
/// the maximized state, or close.
pub fn command(action: WindowAction, is_maximized: bool) -> (c: ViewportCmd)
    ensures
        c == (match action {
            WindowAction::Minimize => ViewportCmd::Minimized(true),
            WindowAction::ToggleMaximize => ViewportCmd::Maximized(!is_maximized),
            WindowAction::Close => ViewportCmd::Close,
        }),
{
    match action {
        WindowAction::Minimize => ViewportCmd::Minimized(true),
        WindowAction::ToggleMaximize => ViewportCmd::Maximized(!is_maximized),
        WindowAction::Close => ViewportCmd::Close,
    }
}

} // verus!
