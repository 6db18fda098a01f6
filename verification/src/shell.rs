//! What the desktop shell decides: what an entry of the tray menu does,
//! which window hides in place of closing, and how the two small windows
//! come up.

use crate::text::same_text;
use vstd::prelude::*;

verus! {

/// What an entry of the tray menu does.
#[derive(Debug, Clone, Copy, PartialEq, Eq, Structural)]
pub enum TrayAction {
    /// Show the main window, focus it and undo its minimizing.
    ShowMain,
    /// Bring up the statistics window.
    ShowStats,
    /// Bring up the quick-add window.
    ShowQuickAdd,
    /// Leave the application.
    Quit,
    /// Do nothing.
    Ignore,
}

/// The action of the menu entry with the id `id`.
pub open spec fn tray_action_of(id: Seq<char>) -> TrayAction {
    if id == "show"@ {
        TrayAction::ShowMain
    } else if id == "stats"@ {
        TrayAction::ShowStats
    } else if id == "quick_add"@ {
        TrayAction::ShowQuickAdd
    } else if id == "quit"@ {
        TrayAction::Quit
    } else {
        TrayAction::Ignore
    }
}

/// Says what the menu entry with the id `id` does; an id that the menu does
/// not have does nothing.
pub fn tray_action(id: &str) -> (action: TrayAction)
    ensures
        action == tray_action_of(id@),
{
    if same_text(id, "show") {
        TrayAction::ShowMain
    } else if same_text(id, "stats") {
        TrayAction::ShowStats
    } else if same_text(id, "quick_add") {
        TrayAction::ShowQuickAdd
    } else if same_text(id, "quit") {
        TrayAction::Quit
    } else {
        TrayAction::Ignore
    }
}

/// Says whether the window with this label is hidden to the tray when the
/// user asks to close it: the main window is, every other window closes.
pub fn hides_on_close(label: &str) -> (hides: bool)
    ensures
        hides == (label@ == "main"@),
{
    same_text(label, "main")
}

/// How a window is set up when it is built. Its size is the shell's matter.
#[derive(Debug, Clone, Copy, PartialEq, Eq)]
pub struct WindowSetup {
    pub label: &'static str,
    pub page: &'static str,
    pub title: &'static str,
    pub resizable: bool,
    pub always_on_top: bool,
    pub decorations: bool,
}

/// What is done to bring a window up.
#[derive(Debug, Clone, Copy, PartialEq, Eq)]
pub enum WindowAction {
    /// The window is there: show it and give it the focus.
    ShowAndFocus,
    /// The window is not there: build it so, centered on the screen.
    Build(WindowSetup),
}

/// Whether `setup` is the set-up of the quick-add window: no title, no frame,
/// a fixed size, and above all other windows.
pub open spec fn is_quick_add_setup(setup: WindowSetup) -> bool {
    &&& setup.label@ == "quick-add"@
    &&& setup.page@ == "quick-add.html"@
    &&& setup.title@ == ""@
    &&& !setup.resizable
    &&& setup.always_on_top
    &&& !setup.decorations
}

/// Whether `setup` is the set-up of the statistics window: an ordinary
/// window that can be resized.
pub open spec fn is_stats_setup(setup: WindowSetup) -> bool {
    &&& setup.label@ == "stats"@
    &&& setup.page@ == "stats.html"@
    &&& setup.title@ == "数据统计"@
    &&& setup.resizable
    &&& !setup.always_on_top
    &&& setup.decorations
}

/// Says how the quick-add window comes up: shown if it exists, built if not.
pub fn create_or_show_quick_add_window(exists: bool) -> (action: WindowAction)
    ensures
        exists ==> action is ShowAndFocus,
        !exists ==> action is Build && is_quick_add_setup(action->Build_0),
{
    if exists {
        WindowAction::ShowAndFocus
    } else {
        WindowAction::Build(
            WindowSetup {
                label: "quick-add",
                page: "quick-add.html",
                title: "",
                resizable: false,
                always_on_top: true,
                decorations: false,
            },
        )
    }
}

/// Says how the statistics window comes up: shown if it exists, built if not.
pub fn create_or_show_stats_window(exists: bool) -> (action: WindowAction)
    ensures
        exists ==> action is ShowAndFocus,
        !exists ==> action is Build && is_stats_setup(action->Build_0),
{
    if exists {
        WindowAction::ShowAndFocus
    } else {
        WindowAction::Build(
            WindowSetup {
                label: "stats",
                page: "stats.html",
                title: "数据统计",
                resizable: true,
                always_on_top: false,
                decorations: true,
            },
        )
    }
}

} // verus!
