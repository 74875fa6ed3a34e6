//! How the main window reacts to the toggle shortcut, the tray menu and its
//! own window events.

use vstd::prelude::*;
use crate::text::text_eq;

verus! {

/// What toggling does to the main window.
#[derive(Clone, Copy, Debug, PartialEq, Eq, Structural)]
pub enum WindowToggle {
    /// Hide the window.
    Hide,
    /// Float the window above others on every workspace at its configured
    /// position, show it and focus it.
    Present,
}

/// Toggling hides a visible window and presents a hidden one.
pub fn toggle_action(is_visible: bool) -> (r: WindowToggle)
    ensures
        r == (if is_visible { WindowToggle::Hide } else { WindowToggle::Present }),
{
    if is_visible {
        WindowToggle::Hide
    } else {
        WindowToggle::Present
    }
}

/// A command of the tray menu.
#[derive(Clone, Copy, Debug, PartialEq, Eq, Structural)]
pub enum TrayCommand {
    ToggleWindow,
    Quit,
}

/// The id of the tray menu item that shows or hides the window.
pub const TOGGLE_MENU_ID: &'static str = "toggle-window";

/// The id of the tray menu item that quits.
pub const QUIT_MENU_ID: &'static str = "quit";

/// The command of the tray menu item with id `id`, if any.
pub fn tray_menu_command(id: &str) -> (r: Option<TrayCommand>)
    ensures
        id@ == TOGGLE_MENU_ID@ ==> r == Some(TrayCommand::ToggleWindow),
        id@ != TOGGLE_MENU_ID@ && id@ == QUIT_MENU_ID@ ==> r == Some(TrayCommand::Quit),
        id@ != TOGGLE_MENU_ID@ && id@ != QUIT_MENU_ID@ ==> r is None,
{
    if text_eq(id, TOGGLE_MENU_ID) {
        Some(TrayCommand::ToggleWindow)
    } else if text_eq(id, QUIT_MENU_ID) {
        Some(TrayCommand::Quit)
    } else {
        None
    }
}

/// The label of the main window.
pub const MAIN_WINDOW_LABEL: &'static str = "main";

/// The kinds of window event the main window reacts to.
#[derive(Clone, Copy, Debug, PartialEq, Eq, Structural)]
pub enum WindowEventKind {
    CloseRequested,
    FocusLost,
    Other,
}

/// How a window event is answered.
#[derive(Clone, Copy, Debug, PartialEq, Eq, Structural)]
pub enum WindowEventResponse {
    Ignore,
    /// Hide the window.
    Hide,
    /// Hide the window and cancel the close, so that the application keeps
    /// running in the tray.
    HideInsteadOfClosing,
}

/// The main window hides instead of closing, and hides when it loses focus;
/// other windows and events are left alone.
pub fn window_event_response(label: &str, event: WindowEventKind) -> (r: WindowEventResponse)
    ensures
        label@ != MAIN_WINDOW_LABEL@ ==> r == WindowEventResponse::Ignore,
        label@ == MAIN_WINDOW_LABEL@ ==> r == match event {
            WindowEventKind::CloseRequested => WindowEventResponse::HideInsteadOfClosing,
            WindowEventKind::FocusLost => WindowEventResponse::Hide,
            WindowEventKind::Other => WindowEventResponse::Ignore,
        },
{
    if !text_eq(label, MAIN_WINDOW_LABEL) {
        return WindowEventResponse::Ignore;
    }
    match event {
        WindowEventKind::CloseRequested => WindowEventResponse::HideInsteadOfClosing,
        WindowEventKind::FocusLost => WindowEventResponse::Hide,
        WindowEventKind::Other => WindowEventResponse::Ignore,
    }
}

} // verus!
