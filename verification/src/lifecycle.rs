//! The application instance and its event dispatch: one step of the event
//! loop maps the current state and an incoming event to the next state and
//! the effect the platform loop must perform. The whole dispatch is given
//! by the spec functions `spec_step` and `spec_effect`; `handle_event` is
//! proved to follow them exactly.

use vstd::prelude::*;
use vstd::string::StringExecFns;
use crate::event::{Effect, Event, TrayEvent, is_left_release};
use crate::menu::TrayMenu;
use crate::window::{MainWindow, after_hide, after_show_focus};

verus! {

/// Whether the process is still running or has been told to exit, and with
/// which code. Only the quit menu entry ever moves it to `Exited`.
#[derive(Clone, Copy, PartialEq, Eq, Structural, Debug)]
pub enum ProcessStatus {
    Running,
    Exited { code: i32 },
}

/// The process-wide application instance: the one main window (absent only
/// if the platform destroyed it behind the controller's back), the process
/// status, and the tray menu built at startup.
#[derive(Clone, PartialEq, Eq, Debug)]
pub struct AppInstance {
    pub window: Option<MainWindow>,
    pub status: ProcessStatus,
    pub menu: TrayMenu,
}

/// The effect of a show-and-focus request: the platform call is made only
/// when the window is there; an absent window is ignored by design.
pub open spec fn show_effect(w: Option<MainWindow>) -> Effect {
    if w is Some {
        Effect::ShowFocusWindow
    } else {
        Effect::Ignore
    }
}

/// The state after a menu selection: `"show"` shows and focuses the window,
/// `"quit"` marks the process exited with code 0, and every other
/// identifier — the navigation entry included — changes no state.
pub open spec fn menu_step(app: AppInstance, id: String) -> AppInstance {
    if id@ == "show"@ {
        AppInstance { window: after_show_focus(app.window), ..app }
    } else if id@ == "quit"@ {
        AppInstance { status: ProcessStatus::Exited { code: 0 }, ..app }
    } else {
        app
    }
}

/// The effect of a menu selection: `"show"` asks for show-and-focus,
/// `"quit"` asks for process exit with code 0, an identifier the menu
/// defines (the navigation entry) asks for its navigation action, and an
/// undefined identifier is ignored.
pub open spec fn menu_effect(app: AppInstance, id: String) -> Effect {
    if id@ == "show"@ {
        show_effect(app.window)
    } else if id@ == "quit"@ {
        Effect::Exit { code: 0 }
    } else if app.menu.has_item(id@) {
        Effect::Navigate { id }
    } else {
        Effect::Ignore
    }
}

/// One step of the controller: the next state after an event.
pub open spec fn spec_step(app: AppInstance, ev: Event) -> AppInstance {
    match ev {
        Event::MenuSelect { id } => menu_step(app, id),
        Event::Tray { event } => if is_left_release(event) {
            AppInstance { window: after_show_focus(app.window), ..app }
        } else {
            app
        },
        Event::CloseRequested => AppInstance { window: after_hide(app.window), ..app },
        Event::SecondInstance { .. } => AppInstance { window: after_show_focus(app.window), ..app },
    }
}

/// One step of the controller: the effect the platform loop must perform.
pub open spec fn spec_effect(app: AppInstance, ev: Event) -> Effect {
    match ev {
        Event::MenuSelect { id } => menu_effect(app, id),
        Event::Tray { event } => if is_left_release(event) {
            show_effect(app.window)
        } else {
            Effect::Ignore
        },
        Event::CloseRequested => if app.window is Some {
            Effect::HidePreventClose
        } else {
            Effect::Ignore
        },
        Event::SecondInstance { .. } => show_effect(app.window),
    }
}

impl AppInstance {
    /// The instance invariant: the menu keeps its well-formedness.
    pub open spec fn wf(self) -> bool {
        self.menu.wf()
    }

    /// Show-and-focus on the main window: a present window becomes visible
    /// and focused, an absent one is left alone and the failure swallowed.
    /// Repeating it changes nothing further.
    pub fn show_and_focus(&mut self) -> (eff: Effect)
        ensures
            final(self).window == after_show_focus(old(self).window),
            final(self).status == old(self).status,
            final(self).menu == old(self).menu,
            eff == show_effect(old(self).window),
    {
        match self.window {
            Some(_) => {
                self.window = Some(
                    MainWindow { visibility: crate::window::Visibility::Visible, focused: true },
                );
                Effect::ShowFocusWindow
            },
            None => Effect::Ignore,
        }
    }

    /// Close interception: the window is hidden, never destroyed, and the
    /// platform's default close is suppressed. The process keeps running.
    pub fn hide_for_close(&mut self) -> (eff: Effect)
        ensures
            final(self).window == after_hide(old(self).window),
            final(self).status == old(self).status,
            final(self).menu == old(self).menu,
            eff == (if old(self).window is Some {
                Effect::HidePreventClose
            } else {
                Effect::Ignore
            }),
    {
        match self.window {
            Some(_) => {
                self.window = Some(
                    MainWindow { visibility: crate::window::Visibility::Hidden, focused: false },
                );
                Effect::HidePreventClose
            },
            None => Effect::Ignore,
        }
    }

    /// Dispatches one event: the new state and returned effect are exactly
    /// those of `spec_step` and `spec_effect`.
    pub fn handle_event(&mut self, ev: &Event) -> (eff: Effect)
        ensures
            *final(self) == spec_step(*old(self), *ev),
            eff == spec_effect(*old(self), *ev),
            final(self).menu == old(self).menu,
            final(self).wf() == old(self).wf(),
    {
        match ev {
            Event::MenuSelect { id } => {
                let show_id = String::from_str("show");
                let quit_id = String::from_str("quit");
                if *id == show_id {
                    self.show_and_focus()
                } else if *id == quit_id {
                    self.status = ProcessStatus::Exited { code: 0 };
                    Effect::Exit { code: 0 }
                } else if self.menu.has_item_with_id(id) {
                    Effect::Navigate { id: id.clone() }
                } else {
                    Effect::Ignore
                }
            },
            Event::Tray { event } => {
                match event {
                    TrayEvent::Click {
                        button: crate::event::TrayButton::Left,
                        state: crate::event::TrayButtonState::Up,
                    } => self.show_and_focus(),
                    _ => Effect::Ignore,
                }
            },
            Event::CloseRequested => self.hide_for_close(),
            Event::SecondInstance { .. } => self.show_and_focus(),
        }
    }
}

/// The state after a whole sequence of events, first event first.
pub open spec fn apply_events(app: AppInstance, evs: Seq<Event>) -> AppInstance
    decreases evs.len(),
{
    if evs.len() == 0 {
        app
    } else {
        apply_events(spec_step(app, evs[0]), evs.drop_first())
    }
}

proof fn lemma_apply_close_all(app: AppInstance, evs: Seq<Event>)
    requires
        forall|i: int| 0 <= i < evs.len() ==> evs[i] is CloseRequested,
    ensures
        apply_events(app, evs).status == app.status,
        apply_events(app, evs).menu == app.menu,
        app.window is Some && evs.len() > 0 ==> apply_events(app, evs).window == Some(
            MainWindow::hidden(),
        ),
        app.window is None ==> apply_events(app, evs).window is None,
    decreases evs.len(),
{
    if evs.len() > 0 {
        let next = spec_step(app, evs[0]);
        lemma_apply_close_all(next, evs.drop_first());
    }
}

/// Law: no sequence of close requests ever terminates the process — the
/// status and menu after the whole sequence are those from before — and
/// after each single close request a present window is hidden, never
/// destroyed.
pub proof fn lemma_close_requests_never_exit(app: AppInstance, evs: Seq<Event>)
    requires
        forall|i: int| 0 <= i < evs.len() ==> evs[i] is CloseRequested,
    ensures
        apply_events(app, evs).status == app.status,
        apply_events(app, evs).menu == app.menu,
        forall|k: int|
            0 < k <= evs.len() && app.window is Some ==> (#[trigger] apply_events(
                app,
                evs.take(k),
            )).window == Some(MainWindow::hidden()),
{
    lemma_apply_close_all(app, evs);
    assert forall|k: int| 0 < k <= evs.len() && app.window is Some implies (#[trigger] apply_events(
        app,
        evs.take(k),
    )).window == Some(MainWindow::hidden()) by {
        lemma_apply_close_all(app, evs.take(k));
    }
}

/// Law: menu dispatch is total over identifiers. `"show"` shows and
/// focuses the window, `"quit"` exits the process with code 0 and touches
/// no window, and any other identifier — the menu-defined navigation entry
/// or an undefined one — changes no state; only a menu-defined identifier
/// asks for its navigation action.
pub proof fn lemma_menu_dispatch_total(app: AppInstance, id: String)
    ensures
        id@ == "show"@ ==> (spec_step(app, Event::MenuSelect { id }) == (AppInstance {
            window: after_show_focus(app.window),
            ..app
        }) && spec_effect(app, Event::MenuSelect { id }) == show_effect(app.window)),
        id@ == "quit"@ ==> (spec_step(app, Event::MenuSelect { id }) == (AppInstance {
            status: ProcessStatus::Exited { code: 0 },
            ..app
        }) && spec_effect(app, Event::MenuSelect { id }) == (Effect::Exit { code: 0 })),
        id@ != "show"@ && id@ != "quit"@ ==> (spec_step(app, Event::MenuSelect { id }) == app
            && (app.menu.has_item(id@) ==> spec_effect(app, Event::MenuSelect { id })
            == (Effect::Navigate { id })) && (!app.menu.has_item(id@) ==> spec_effect(
            app,
            Event::MenuSelect { id },
        ) == Effect::Ignore)),
{
    reveal_strlit("show");
    reveal_strlit("quit");
    assert("show"@ != "quit"@) by {
        assert("show"@[0] == 's');
        assert("quit"@[0] == 'q');
    }
}

/// Law: among all tray gestures, exactly the left-button press that has
/// come back up — a completed click — triggers show-and-focus; every other
/// gesture (right clicks, presses, double clicks, pointer motion) leaves
/// the state untouched and asks the platform for nothing.
pub proof fn lemma_tray_click_filter(app: AppInstance, t: TrayEvent)
    ensures
        is_left_release(t) ==> (spec_step(app, Event::Tray { event: t }) == (AppInstance {
            window: after_show_focus(app.window),
            ..app
        }) && spec_effect(app, Event::Tray { event: t }) == show_effect(app.window)),
        !is_left_release(t) ==> (spec_step(app, Event::Tray { event: t }) == app && spec_effect(
            app,
            Event::Tray { event: t },
        ) == Effect::Ignore),
{
}

/// Law: every step that requests show-and-focus — the `"show"` menu entry,
/// a completed left click on the tray, or a forwarded second launch —
/// leaves a present window visible and focused; on an instance whose
/// window is already visible and focused it changes nothing at all, and
/// repeating it changes nothing further.
pub proof fn lemma_show_step_idempotent(app: AppInstance, ev: Event)
    requires
        (ev is SecondInstance) || (ev matches Event::MenuSelect { id } && id@ == "show"@) || (
        ev matches Event::Tray { event } && is_left_release(event)),
    ensures
        app.window is Some ==> spec_step(app, ev).window == Some(MainWindow::shown_focused()),
        app.window == Some(MainWindow::shown_focused()) ==> spec_step(app, ev) == app,
        spec_step(spec_step(app, ev), ev) == spec_step(app, ev),
{
}

} // verus!
