//! Events delivered to the controller by the platform event loop, and the
//! effects the controller asks the loop to perform in return.

use vstd::prelude::*;

verus! {

/// Mouse button reported with a tray-icon event.
#[derive(Clone, Copy, PartialEq, Eq, Structural, Debug)]
pub enum TrayButton {
    Left,
    Right,
    Middle,
}

/// Whether the reported button was pressed or released.
#[derive(Clone, Copy, PartialEq, Eq, Structural, Debug)]
pub enum TrayButtonState {
    Up,
    Down,
}

/// An event on the tray icon itself. Only a left-button click that has
/// reached its release (`Click` with `Up`) counts as a click; everything
/// else — presses, other buttons, double clicks, pointer motion — is noise
/// the controller ignores.
#[derive(Clone, Copy, PartialEq, Eq, Structural, Debug)]
pub enum TrayEvent {
    Click { button: TrayButton, state: TrayButtonState },
    DoubleClick { button: TrayButton },
    Enter,
    Move,
    Leave,
}

/// The payload a second process forwards to the running instance before it
/// exits: its argument list and working directory.
#[derive(Clone, PartialEq, Eq, Debug)]
pub struct SecondInstanceSignal {
    pub args: Vec<String>,
    pub cwd: String,
}

/// An event the loop hands to the controller.
#[derive(Clone, PartialEq, Eq, Debug)]
pub enum Event {
    /// A tray-menu entry was selected, carrying its identifier.
    MenuSelect { id: String },
    /// Something happened on the tray icon.
    Tray { event: TrayEvent },
    /// The user asked the platform to close the main window.
    CloseRequested,
    /// A second process launched, forwarded its signal, and exited.
    SecondInstance { signal: SecondInstanceSignal },
}

/// What the controller asks the platform loop to do after a decision.
#[derive(Clone, PartialEq, Eq, Debug)]
pub enum Effect {
    /// Nothing: the event was noise, or the window is gone and the failure
    /// is swallowed by design.
    Ignore,
    /// Show the main window and give it input focus.
    ShowFocusWindow,
    /// Hide the main window and suppress the platform's default close, so
    /// the window is never destroyed.
    HidePreventClose,
    /// Terminate the whole process with the given code.
    Exit { code: i32 },
    /// Perform the navigation action behind the given menu identifier; the
    /// action's target is outside the controller's scope.
    Navigate { id: String },
}

/// True exactly for the one tray gesture that triggers show-and-focus: a
/// left-button press that has come back up.
pub open spec fn is_left_release(t: TrayEvent) -> bool {
    t matches TrayEvent::Click { button: TrayButton::Left, state: TrayButtonState::Up }
}

} // verus!
