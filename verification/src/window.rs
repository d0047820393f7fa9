//! The main window's visibility and focus state, and the two operations the
//! controller performs on it: show-and-focus, and hide on a close request.

use vstd::prelude::*;

verus! {

/// Whether the main window is currently shown on screen.
#[derive(Clone, Copy, PartialEq, Eq, Structural, Debug)]
pub enum Visibility {
    Visible,
    Hidden,
}

/// The one main window: its visibility and whether it holds input focus.
/// The window is never destroyed while the process runs; at most its
/// visibility changes.
#[derive(Clone, Copy, PartialEq, Eq, Structural, Debug)]
pub struct MainWindow {
    pub visibility: Visibility,
    pub focused: bool,
}

impl MainWindow {
    /// The state a window is left in by a successful show-and-focus.
    pub open spec fn shown_focused() -> MainWindow {
        MainWindow { visibility: Visibility::Visible, focused: true }
    }

    /// The state a window is left in by close interception: hidden, and
    /// without input focus, since a hidden window cannot hold it.
    pub open spec fn hidden() -> MainWindow {
        MainWindow { visibility: Visibility::Hidden, focused: false }
    }
}

/// Show-and-focus over an optional window: a present window becomes visible
/// and focused; an absent window (destroyed by the platform) is left alone,
/// the failure swallowed.
pub open spec fn after_show_focus(w: Option<MainWindow>) -> Option<MainWindow> {
    match w {
        Some(_) => Some(MainWindow::shown_focused()),
        None => None,
    }
}

/// Close interception over an optional window: a present window is hidden,
/// never destroyed; an absent window is left alone.
pub open spec fn after_hide(w: Option<MainWindow>) -> Option<MainWindow> {
    match w {
        Some(_) => Some(MainWindow::hidden()),
        None => None,
    }
}

/// The fixed identifier under which the main window is addressed.
pub fn main_window_label() -> (s: &'static str)
    ensures
        s@ == "main"@,
{
    "main"
}

/// Law: show-and-focus always yields a visible, focused window when one is
/// present; on a window that is already visible and focused it changes
/// nothing; doing it twice is the same as doing it once; and it never
/// conjures a window out of absence.
pub proof fn lemma_show_and_focus(w: MainWindow)
    ensures
        after_show_focus(Some(w)) == Some(MainWindow::shown_focused()),
        w == MainWindow::shown_focused() ==> after_show_focus(Some(w)) == Some(w),
        after_show_focus(after_show_focus(Some(w))) == after_show_focus(Some(w)),
        after_show_focus(Option::<MainWindow>::None) == Option::<MainWindow>::None,
{
}

/// Law: close interception hides a present window and never removes it; a
/// hidden window stays hidden under further close requests.
pub proof fn lemma_hide_on_close(w: MainWindow)
    ensures
        after_hide(Some(w)) == Some(MainWindow::hidden()),
        after_hide(after_hide(Some(w))) == after_hide(Some(w)),
        after_hide(Option::<MainWindow>::None) == Option::<MainWindow>::None,
{
}

} // verus!
