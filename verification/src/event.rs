//! The events that the host delivers to the shell, reduced to what the shell
//! reads of them.

use vstd::prelude::*;

verus! {

/// The mouse button behind a tray event.
#[derive(Clone, Copy, Debug, PartialEq, Eq, Structural)]
pub enum MouseButton {
    Left,
    Right,
    Middle,
}

/// Whether the button was let go or pressed when the event was raised.
#[derive(Clone, Copy, Debug, PartialEq, Eq, Structural)]
pub enum MouseButtonState {
    Up,
    Down,
}

/// Something that happened to the tray icon.
#[derive(Clone, Copy, Debug, PartialEq, Eq, Structural)]
pub enum TrayEvent {
    Click { button: MouseButton, button_state: MouseButtonState },
    DoubleClick { button: MouseButton },
    Enter,
    Move,
    Leave,
    /// A kind of tray event that has no name here.
    Other,
}

/// Something that happened to a window.
#[derive(Clone, Copy, Debug, PartialEq, Eq, Structural)]
pub enum WindowEvent {
    Resized,
    Moved,
    /// The user asked for the window to be closed; it is not closed yet.
    CloseRequested,
    Destroyed,
    Focused(bool),
    ScaleFactorChanged,
    DragDrop,
    ThemeChanged,
    /// A kind of window event that has no name here.
    Other,
}

impl TrayEvent {
    /// A click with the left button, raised when the button is let go.
    pub open spec fn is_left_release(self) -> bool {
        self == (TrayEvent::Click { button: MouseButton::Left, button_state: MouseButtonState::Up })
    }

    /// Whether this is a left click raised on release.
    pub fn left_release(&self) -> (b: bool)
        ensures
            b == self.is_left_release(),
    {
        match self {
            TrayEvent::Click { button: MouseButton::Left, button_state: MouseButtonState::Up } => true,
            _ => false,
        }
    }
}

impl WindowEvent {
    /// Whether this is a request to close the window.
    pub fn close_requested(&self) -> (b: bool)
        ensures
            b == (*self == WindowEvent::CloseRequested),
    {
        match self {
            WindowEvent::CloseRequested => true,
            _ => false,
        }
    }
}

} // verus!
