use shell_bootstrap::startup::{startup_diagnostic, Action, BuildOutcome, Phase, STARTUP_FAILURE_STATUS};

fn failed(detail: &str) -> BuildOutcome {
    BuildOutcome::Failed { detail: detail.to_string() }
}

#[test]
fn initial_phase_is_not_started() {
    assert_eq!(Phase::initial(), Phase::NotStarted);
}

#[test]
fn built_application_enters_event_loop() {
    let mut p = Phase::initial();
    let a = p.on_build(&BuildOutcome::Built);
    assert!(matches!(a, Action::EnterEventLoop));
    assert_eq!(p, Phase::Running);
}

#[test]
fn failed_build_exits_with_diagnostic() {
    let mut p = Phase::initial();
    let a = p.on_build(&failed("missing window icon"));
    assert_eq!(p, Phase::Failed);
    match a {
        Action::Exit { status, diagnostic } => {
            assert_eq!(status, 101);
            assert_eq!(diagnostic, "failed to run tauri app: missing window icon");
        }
        other => panic!("expected an exit, got {:?}", other),
    }
}

#[test]
fn failure_status_is_non_zero() {
    assert_ne!(STARTUP_FAILURE_STATUS, 0);
}

#[test]
fn diagnostic_with_empty_detail() {
    assert_eq!(startup_diagnostic(""), "failed to run tauri app: ");
}

#[test]
fn diagnostic_keeps_detail_verbatim() {
    let d = startup_diagnostic("Runtime(CreateWebview(\"no display\"))");
    assert_eq!(d, "failed to run tauri app: Runtime(CreateWebview(\"no display\"))");
}

#[test]
fn outcome_after_running_is_ignored() {
    let mut p = Phase::initial();
    p.on_build(&BuildOutcome::Built);
    let a = p.on_build(&failed("late"));
    assert!(matches!(a, Action::Ignore));
    assert_eq!(p, Phase::Running);
}

#[test]
fn outcome_after_failure_is_ignored() {
    let mut p = Phase::initial();
    p.on_build(&failed("first"));
    let a = p.on_build(&BuildOutcome::Built);
    assert!(matches!(a, Action::Ignore));
    assert_eq!(p, Phase::Failed);
}

#[test]
fn launch_either_runs_or_fails() {
    for outcome in [BuildOutcome::Built, failed("no display")] {
        let mut p = Phase::initial();
        match p.on_build(&outcome) {
            Action::EnterEventLoop => assert_eq!(p, Phase::Running),
            Action::Exit { status, diagnostic } => {
                assert_eq!(p, Phase::Failed);
                assert_ne!(status, 0);
                assert!(diagnostic.starts_with("failed to run tauri app"));
            }
            Action::Ignore => panic!("a first outcome is never ignored"),
        }
    }
}
