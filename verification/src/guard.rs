//! The single-instance guard and process startup: a process-wide exclusive
//! lock admits at most one holder; a process that fails to take it forwards
//! its arguments to the holder and exits without building any window.

use vstd::prelude::*;
use crate::event::{Effect, Event, SecondInstanceSignal};
use crate::lifecycle::{AppInstance, ProcessStatus, show_effect, spec_effect, spec_step};
use crate::menu::{NavAction, TrayMenu, menu_shape};
use crate::registry::{StartupError, all_ok, capability_order, fails_first, register_capabilities};
use crate::window::{MainWindow, Visibility};

verus! {

/// The process-wide exclusive lock, identified by the application name.
/// `holder` carries the process identifier of the one holder, if any.
#[derive(Clone, Copy, PartialEq, Eq, Structural, Debug)]
pub struct InstanceLock {
    pub holder: Option<u64>,
}

/// Startup may build an instance exactly when nobody holds the lock.
pub open spec fn gate_allows(l: InstanceLock) -> bool {
    l.holder is None
}

impl InstanceLock {
    /// A lock nobody holds yet.
    pub fn new() -> (l: InstanceLock)
        ensures
            l.holder is None,
    {
        InstanceLock { holder: None }
    }

    /// Attempts to take the lock for the given process: it succeeds exactly
    /// when the lock is free, and a held lock is left untouched.
    pub fn try_acquire(&mut self, pid: u64) -> (acquired: bool)
        ensures
            acquired == gate_allows(*old(self)),
            gate_allows(*old(self)) ==> final(self).holder == Some(pid),
            !gate_allows(*old(self)) ==> *final(self) == *old(self),
    {
        match self.holder {
            None => {
                self.holder = Some(pid);
                true
            },
            Some(_) => false,
        }
    }

    /// The holder gives the lock up; it happens only when its process dies.
    pub fn release(&mut self)
        requires
            old(self).holder is Some,
        ensures
            final(self).holder is None,
    {
        self.holder = None;
    }
}

/// How a process start ends.
#[derive(Clone, PartialEq, Eq, Debug)]
pub enum StartOutcome {
    /// The lock was taken and startup succeeded: this process runs the
    /// instance, with its window, menu and event loop.
    Primary { app: AppInstance },
    /// Another process holds the lock: this one forwards its arguments and
    /// working directory to the holder and exits without building any
    /// window.
    ForwardAndExit { signal: SecondInstanceSignal },
    /// Startup failed before the event loop; the process aborts and the
    /// lock is free again.
    Fatal { error: StartupError },
}

/// The window a primary start creates: visible or hidden per the
/// platform's default, and without input focus yet.
pub open spec fn initial_window(start_visible: bool) -> MainWindow {
    MainWindow {
        visibility: if start_visible {
            Visibility::Visible
        } else {
            Visibility::Hidden
        },
        focused: false,
    }
}

/// The start only forwarded the second process's arguments and working
/// directory to the holder; it built no window and no instance.
pub open spec fn forwards_and_exits(out: StartOutcome, args: Vec<String>, cwd: String) -> bool {
    out matches StartOutcome::ForwardAndExit { signal } && signal.args == args && signal.cwd == cwd
}

/// The start aborted on the first capability whose registration failed.
pub open spec fn fatal_capability(out: StartOutcome, outcomes: Seq<bool>) -> bool {
    out matches StartOutcome::Fatal { error: StartupError::CapabilityFailed { capability } }
        && fails_first(outcomes, capability)
}

/// The start reached the event loop: a well-formed menu holding exactly
/// the startup entries, a running process, and a fresh unfocused window
/// per the platform's default visibility.
pub open spec fn runs_primary(out: StartOutcome, start_visible: bool, nav: Option<NavAction>) -> bool {
    out matches StartOutcome::Primary { app } && app.wf() && menu_shape(app.menu, nav) && app.status
        == ProcessStatus::Running && app.window == Some(initial_window(start_visible))
}

/// Runs one process start against the lock. The guard gates first: with
/// the lock held elsewhere the outcome only forwards the arguments, and no
/// window exists in it. Otherwise the capability outcomes are checked in
/// registration order, the menu is built, and the tray outcome decides
/// whether the process reaches the event loop.
pub fn start(
    lock: &mut InstanceLock,
    pid: u64,
    args: Vec<String>,
    cwd: String,
    capability_outcomes: &Vec<bool>,
    tray_ok: bool,
    start_visible: bool,
    nav: Option<NavAction>,
) -> (out: StartOutcome)
    requires
        capability_outcomes@.len() == capability_order().len(),
        nav matches Some(n) ==> n.id@.len() > 0 && n.id@ != "show"@ && n.id@ != "quit"@,
    ensures
        !gate_allows(*old(lock)) ==> (*final(lock) == *old(lock) && forwards_and_exits(
            out,
            args,
            cwd,
        )),
        gate_allows(*old(lock)) && !all_ok(capability_outcomes@) ==> (*final(lock) == *old(lock)
            && fatal_capability(out, capability_outcomes@)),
        gate_allows(*old(lock)) && all_ok(capability_outcomes@) && !tray_ok ==> (*final(lock)
            == *old(lock) && (out matches StartOutcome::Fatal {
            error: StartupError::TraySetupFailed,
        })),
        gate_allows(*old(lock)) && all_ok(capability_outcomes@) && tray_ok ==> (final(lock).holder
            == Some(pid) && runs_primary(out, start_visible, nav)),
{
    let acquired = lock.try_acquire(pid);
    if !acquired {
        return StartOutcome::ForwardAndExit { signal: SecondInstanceSignal { args, cwd } };
    }
    match register_capabilities(capability_outcomes) {
        Err(e) => {
            lock.release();
            StartOutcome::Fatal { error: e }
        },
        Ok(()) => {
            if !tray_ok {
                lock.release();
                StartOutcome::Fatal { error: StartupError::TraySetupFailed }
            } else {
                let menu = TrayMenu::build(nav);
                let visibility = if start_visible {
                    Visibility::Visible
                } else {
                    Visibility::Hidden
                };
                StartOutcome::Primary {
                    app: AppInstance {
                        window: Some(MainWindow { visibility, focused: false }),
                        status: ProcessStatus::Running,
                        menu,
                    },
                }
            }
        },
    }
}

/// Law: the lock admits one holder at a time. While some process holds it,
/// a start elsewhere is gated off — no second window is ever built — and
/// the signal such a start forwards makes the holder's instance show and
/// focus its window, leaving the holder's process running as it was.
pub proof fn lemma_lock_excludes_second(
    lock: InstanceLock,
    holder_app: AppInstance,
    sig: SecondInstanceSignal,
)
    requires
        lock.holder is Some,
    ensures
        !gate_allows(lock),
        spec_step(holder_app, Event::SecondInstance { signal: sig }).status == holder_app.status,
        spec_step(holder_app, Event::SecondInstance { signal: sig }).menu == holder_app.menu,
        holder_app.window is Some ==> spec_step(holder_app, Event::SecondInstance { signal: sig })
            .window == Some(MainWindow::shown_focused()),
        holder_app.window is None ==> spec_step(holder_app, Event::SecondInstance { signal: sig })
            .window is None,
        spec_effect(holder_app, Event::SecondInstance { signal: sig })
            == show_effect(holder_app.window),
{
}

} // verus!
