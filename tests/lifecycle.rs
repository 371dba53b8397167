use agno_desktop::bootstrap::{
    entry_module, step, Action, Event, Failure, Phase, ScriptOutcome, FAILURE_EXIT_CODE,
};
use agno_desktop::environment::{resolve, EnvironmentDescriptor, EnvironmentProbe};

#[test]
fn entry_module_is_fixed() {
    assert_eq!(entry_module(), "tauri_app");
}

#[test]
fn standalone_run_exits_zero() {
    let resolved = resolve(EnvironmentProbe::Standalone { resource_dir: Ok("/opt/app/resources".to_string()) });
    let (phase, action) = step(Phase::Resolving, Event::EnvironmentResolved(resolved));
    match action {
        Action::BuildInterpreter { environment: EnvironmentDescriptor::StandaloneBundle(p) } => {
            assert_eq!(p, "/opt/app/resources")
        }
        _ => panic!("expected a build"),
    }
    let (phase, action) = step(phase, Event::InterpreterBuilt(Ok(())));
    assert!(matches!(action, Action::RunInterpreter));
    let (phase, action) = step(phase, Event::ScriptFinished(ScriptOutcome::Completed(0)));
    assert!(matches!(phase, Phase::Finished(0)));
    assert!(matches!(action, Action::Exit { code: 0, failure: None }));
}

#[test]
fn unset_variable_exits_before_build() {
    let resolved = resolve(EnvironmentProbe::Development { venv: Err("not present".to_string()) });
    let (phase, action) = step(Phase::Resolving, Event::EnvironmentResolved(resolved));
    assert!(matches!(phase, Phase::Finished(1)));
    match action {
        Action::Exit { code, failure: Some(Failure::Configuration(e)) } => {
            assert_ne!(code, 0);
            assert!(e.message().contains("VIRTUAL_ENV"));
        }
        _ => panic!("expected an exit"),
    }
    let (phase, action) = step(phase, Event::InterpreterBuilt(Ok(())));
    assert!(matches!(phase, Phase::Finished(1)));
    assert!(matches!(action, Action::Exit { code: 1, failure: None }));
}

#[test]
fn script_exit_code_is_kept() {
    let (_, action) = step(Phase::Running, Event::ScriptFinished(ScriptOutcome::Completed(3)));
    assert!(matches!(action, Action::Exit { code: 3, failure: None }));
}

#[test]
fn script_failure_exits_non_zero() {
    let (phase, action) =
        step(Phase::Running, Event::ScriptFinished(ScriptOutcome::Failed("Traceback".to_string())));
    assert!(matches!(phase, Phase::Finished(FAILURE_EXIT_CODE)));
    match action {
        Action::Exit { code, failure: Some(Failure::Script(d)) } => {
            assert_eq!(code, 1);
            assert_eq!(d, "Traceback");
        }
        _ => panic!("expected an exit"),
    }
}

#[test]
fn bootstrap_failure_exits_non_zero() {
    let (_, action) = step(Phase::Building, Event::InterpreterBuilt(Err("no python".to_string())));
    assert!(matches!(action, Action::Exit { code: 1, failure: Some(Failure::Bootstrap(_)) }));
}

#[test]
fn out_of_order_event_exits_non_zero() {
    let (phase, action) = step(Phase::Resolving, Event::ScriptFinished(ScriptOutcome::Completed(0)));
    assert!(matches!(phase, Phase::Finished(1)));
    assert!(matches!(action, Action::Exit { code: 1, failure: Some(Failure::OutOfOrder) }));
}
