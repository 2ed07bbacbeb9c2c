use voxtype::config::Config;
use voxtype::hotkey::{AcquireAction, AttemptOutcome, HotkeyAcquisition};

/// Runs an acquisition, answering the i-th attempt with `outcomes[i]`;
/// returns the attempted candidates and the final action.
fn run(configured: &str, outcomes: &[AttemptOutcome]) -> (Vec<String>, HotkeyAcquisition) {
    let mut acq = HotkeyAcquisition::new(&configured.to_string());
    let mut attempted = Vec::new();
    loop {
        match acq.next_action() {
            AcquireAction::Attempt(c) => {
                let o = outcomes[attempted.len()];
                attempted.push(c);
                acq.report(o);
            }
            AcquireAction::Done(_) => break,
        }
    }
    (attempted, acq)
}

fn settings(shortcut: &str) -> Config {
    Config::with_defaults(None).with_shortcut(shortcut.to_string())
}

#[test]
fn candidates_put_configured_first() {
    let acq = HotkeyAcquisition::new(&"Ctrl+Shift+Space".to_string());
    let expected = [
        "Ctrl+Shift+Space", "F12", "F11", "F10", "F9", "Pause", "ScrollLock", "Insert", "F8", "F7",
    ];
    assert_eq!(acq.candidates, expected.iter().map(|s| s.to_string()).collect::<Vec<_>>());
}

#[test]
fn configured_hotkey_binds_without_rewrite() {
    let (attempted, acq) = run("Ctrl+Shift+Space", &[AttemptOutcome::Activated]);
    assert_eq!(attempted, vec!["Ctrl+Shift+Space".to_string()]);
    match acq.next_action() {
        AcquireAction::Done(Some(a)) => {
            assert_eq!(a.hotkey, "Ctrl+Shift+Space");
            assert!(!a.was_fallback);
        }
        other => panic!("unexpected {:?}", other),
    }
    assert!(acq.rewrite(&settings("Ctrl+Shift+Space")).is_none());
}

#[test]
fn first_success_stops_the_search() {
    let outcomes = [
        AttemptOutcome::ParseFailed,
        AttemptOutcome::InstallFailed,
        AttemptOutcome::ActivateFailed,
        AttemptOutcome::Activated,
        AttemptOutcome::Activated,
    ];
    let (attempted, mut acq) = run("Bogus+Key", &outcomes);
    assert_eq!(attempted, vec!["Bogus+Key", "F12", "F11", "F10"]);
    acq.report(AttemptOutcome::ActivateFailed);
    match acq.next_action() {
        AcquireAction::Done(Some(a)) => {
            assert_eq!(a.hotkey, "F10");
            assert!(a.was_fallback);
        }
        other => panic!("unexpected {:?}", other),
    }
    let rewritten = acq.rewrite(&settings("Bogus+Key")).unwrap();
    assert_eq!(rewritten.shortcut, "F10");
}

#[test]
fn exhaustion_binds_nothing_and_persists_nothing() {
    let outcomes = [AttemptOutcome::ActivateFailed; 10];
    let (attempted, acq) = run("Ctrl+Shift+Space", &outcomes);
    assert_eq!(attempted.len(), 10);
    assert_eq!(attempted[9], "F7");
    assert!(matches!(acq.next_action(), AcquireAction::Done(None)));
    assert!(acq.rewrite(&settings("Ctrl+Shift+Space")).is_none());
}

#[test]
fn last_fallback_can_bind() {
    let mut outcomes = vec![AttemptOutcome::ParseFailed; 9];
    outcomes.push(AttemptOutcome::Activated);
    let (attempted, acq) = run("x", &outcomes);
    assert_eq!(attempted.len(), 10);
    assert_eq!(acq.rewrite(&settings("x")).unwrap().shortcut, "F7");
}
