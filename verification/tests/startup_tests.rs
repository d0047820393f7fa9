use tray_lifecycle::event::{Effect, Event};
use tray_lifecycle::guard::{start, InstanceLock, StartOutcome};
use tray_lifecycle::lifecycle::ProcessStatus;
use tray_lifecycle::registry::{
    register_capabilities, registration_order, Capability, StartupError,
};
use tray_lifecycle::window::Visibility;

fn all_ok_outcomes() -> Vec<bool> {
    vec![true; registration_order().len()]
}

#[test]
fn lock_admits_a_single_holder() {
    let mut lock = InstanceLock::new();
    assert!(lock.try_acquire(1));
    assert_eq!(lock.holder, Some(1));
    assert!(!lock.try_acquire(2));
    assert_eq!(lock.holder, Some(1));
}

#[test]
fn registration_order_is_fixed() {
    assert_eq!(
        registration_order(),
        vec![
            Capability::SingleInstance,
            Capability::Autostart,
            Capability::Shell,
            Capability::Opener,
            Capability::Http,
            Capability::Fs,
        ]
    );
}

#[test]
fn registration_succeeds_when_all_outcomes_do() {
    assert_eq!(register_capabilities(&all_ok_outcomes()), Ok(()));
}

#[test]
fn registration_reports_first_failed_capability() {
    let outcomes = vec![true, true, false, true, false, true];
    assert_eq!(
        register_capabilities(&outcomes),
        Err(StartupError::CapabilityFailed { capability: Capability::Shell })
    );
}

#[test]
fn second_launch_forwards_and_first_window_shows() {
    let mut lock = InstanceLock::new();
    let out_a = start(
        &mut lock,
        1,
        vec![],
        "/home/a".to_string(),
        &all_ok_outcomes(),
        true,
        false,
        None,
    );
    let mut app_a = match out_a {
        StartOutcome::Primary { app } => app,
        _ => panic!("first launch must run the instance"),
    };
    assert_eq!(app_a.status, ProcessStatus::Running);
    let win = app_a.window.expect("first launch must own the window");
    assert_eq!(win.visibility, Visibility::Hidden);

    let out_b = start(
        &mut lock,
        2,
        vec!["--foo".to_string()],
        "/home/b".to_string(),
        &all_ok_outcomes(),
        true,
        false,
        None,
    );
    let signal = match out_b {
        StartOutcome::ForwardAndExit { signal } => signal,
        _ => panic!("second launch must forward and exit without a window"),
    };
    assert_eq!(signal.args, vec!["--foo".to_string()]);
    assert_eq!(signal.cwd, "/home/b".to_string());
    assert_eq!(lock.holder, Some(1));

    let eff = app_a.handle_event(&Event::SecondInstance { signal });
    let win = app_a.window.expect("the window survives the signal");
    assert_eq!(win.visibility, Visibility::Visible);
    assert!(win.focused);
    assert_eq!(app_a.status, ProcessStatus::Running);
    assert_eq!(eff, Effect::ShowFocusWindow);
}

#[test]
fn closed_window_still_answers_the_tray() {
    let mut lock = InstanceLock::new();
    let out = start(
        &mut lock,
        7,
        vec![],
        "/home/a".to_string(),
        &all_ok_outcomes(),
        true,
        true,
        None,
    );
    let mut app = match out {
        StartOutcome::Primary { app } => app,
        _ => panic!("launch must run the instance"),
    };
    assert_eq!(app.window.unwrap().visibility, Visibility::Visible);

    let eff = app.handle_event(&Event::CloseRequested);
    assert_eq!(eff, Effect::HidePreventClose);
    assert_eq!(app.window.unwrap().visibility, Visibility::Hidden);
    assert_eq!(app.status, ProcessStatus::Running);

    let eff = app.handle_event(&Event::MenuSelect { id: "show".to_string() });
    assert_eq!(eff, Effect::ShowFocusWindow);
    let win = app.window.unwrap();
    assert_eq!(win.visibility, Visibility::Visible);
    assert!(win.focused);
    assert_eq!(app.status, ProcessStatus::Running);
}

#[test]
fn capability_failure_aborts_startup() {
    let mut lock = InstanceLock::new();
    let mut outcomes = all_ok_outcomes();
    outcomes[1] = false;
    let out = start(
        &mut lock,
        3,
        vec![],
        "/home/a".to_string(),
        &outcomes,
        true,
        false,
        None,
    );
    assert_eq!(
        out,
        StartOutcome::Fatal {
            error: StartupError::CapabilityFailed { capability: Capability::Autostart }
        }
    );
    assert_eq!(lock.holder, None);
    assert!(lock.try_acquire(4));
}

#[test]
fn tray_failure_aborts_startup() {
    let mut lock = InstanceLock::new();
    let out = start(
        &mut lock,
        5,
        vec![],
        "/home/a".to_string(),
        &all_ok_outcomes(),
        false,
        false,
        None,
    );
    assert_eq!(out, StartOutcome::Fatal { error: StartupError::TraySetupFailed });
    assert_eq!(lock.holder, None);
}

#[test]
fn primary_start_respects_platform_visibility() {
    let mut lock = InstanceLock::new();
    let out = start(
        &mut lock,
        6,
        vec![],
        "/home/a".to_string(),
        &all_ok_outcomes(),
        true,
        true,
        None,
    );
    match out {
        StartOutcome::Primary { app } => {
            let win = app.window.unwrap();
            assert_eq!(win.visibility, Visibility::Visible);
            assert!(!win.focused);
        },
        _ => panic!("launch must run the instance"),
    }
    assert_eq!(lock.holder, Some(6));
}
