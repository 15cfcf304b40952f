//! The viewer's main window and the three buttons of its title bar.

use vstd::prelude::*;

verus! {

/// A button of the title bar.
#[derive(Clone, Copy, Debug, PartialEq, Eq, Structural)]
pub enum TitleButton {
    Close,
    Minimize,
    Maximize,
}

/// What the title bar asks the windowing shell to do to the main window.
#[derive(Clone, Copy, Debug, PartialEq, Eq, Structural)]
pub enum WindowCommand {
    Close,
    Minimize,
    Maximize,
    Unmaximize,
}

/// The viewer's main window as the title bar sees it.
#[derive(Clone, Copy, Debug, PartialEq, Eq)]
pub struct MainWindow {
    pub is_maximized: bool,
}

/// The id under which the windowing shell knows the main window.
pub const MAIN_WINDOW_ID: i32 = 1;

/// What a press of the maximize button asks for: a maximized window is
/// restored, any other is maximized.
pub open spec fn toggled(is_maximized: bool) -> WindowCommand {
    if is_maximized {
        WindowCommand::Unmaximize
    } else {
        WindowCommand::Maximize
    }
}

/// What a press of a button asks for.
pub open spec fn pressed(is_maximized: bool, button: TitleButton) -> WindowCommand {
    match button {
        TitleButton::Close => WindowCommand::Close,
        TitleButton::Minimize => WindowCommand::Minimize,
        TitleButton::Maximize => toggled(is_maximized),
    }
}

impl MainWindow {
    /// Handles a press of the maximize button: says what to ask for, and
    /// notes the state that the window will be in.
    pub fn toggle_maximize(&mut self) -> (command: WindowCommand)
        ensures
            command == toggled(old(self).is_maximized),
            final(self).is_maximized == !old(self).is_maximized,
    {
        if self.is_maximized {
            self.is_maximized = false;
            WindowCommand::Unmaximize
        } else {
            self.is_maximized = true;
            WindowCommand::Maximize
        }
    }

    /// Handles a press of a button of the title bar. Only the maximize
    /// button changes what is noted of the window.
    pub fn press(&mut self, button: TitleButton) -> (command: WindowCommand)
        ensures
            command == pressed(old(self).is_maximized, button),
            final(self).is_maximized == (if button == TitleButton::Maximize {
                !old(self).is_maximized
            } else {
                old(self).is_maximized
            }),
    {
        match button {
            TitleButton::Close => WindowCommand::Close,
            TitleButton::Minimize => WindowCommand::Minimize,
            TitleButton::Maximize => self.toggle_maximize(),
        }
    }
}

/// The window state that a viewer starts with: not maximized.
pub fn provide_window() -> (window: MainWindow)
    ensures
        !window.is_maximized,
{
    MainWindow { is_maximized: false }
}

} // verus!
