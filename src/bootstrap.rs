use vstd::prelude::*;
use vstd::string::StringExecFns;

use crate::environment::{ConfigurationError, EnvironmentDescriptor, EnvironmentProbe, resolves_to};

verus! {

/// The exit code of the host when bootstrap or the script fails.
pub const FAILURE_EXIT_CODE: i32 = 1;

/// The dotted module path of the script that the interpreter runs.
pub open spec fn entry_module_view() -> Seq<char> {
    "tauri_app"@
}

/// The script entry point, fixed at compile time.
pub fn entry_module() -> (r: String)
    ensures
        r@ == entry_module_view(),
{
    String::from_str("tauri_app")
}

/// How the entry script ended.
pub enum ScriptOutcome {
    /// It completed and declared this exit code.
    Completed(i32),
    /// It raised an unhandled failure, described here.
    Failed(String),
}

/// What brought the host down, for its diagnostic channel.
pub enum Failure {
    Configuration(ConfigurationError),
    Bootstrap(String),
    Script(String),
    /// An event came that the current phase does not expect.
    OutOfOrder,
}

/// Where the host is in its one-shot lifecycle.
pub enum Phase {
    Resolving,
    Building,
    Running,
    Finished(i32),
}

/// What the host reports back after doing what an action asked.
pub enum Event {
    EnvironmentResolved(Result<EnvironmentDescriptor, ConfigurationError>),
    InterpreterBuilt(Result<(), String>),
    ScriptFinished(ScriptOutcome),
}

/// What the host is to do next.
pub enum Action {
    /// Construct the one interpreter against this environment, with the
    /// capability module installed before the entry script runs.
    BuildInterpreter { environment: EnvironmentDescriptor },
    /// Hand control to the entry script and wait for it.
    RunInterpreter,
    /// Report the failure, if any, and terminate with this code.
    Exit { code: i32, failure: Option<Failure> },
}

/// The failing exit, with its cause.
pub open spec fn fail(failure: Failure) -> (Phase, Action) {
    (
        Phase::Finished(FAILURE_EXIT_CODE),
        Action::Exit { code: FAILURE_EXIT_CODE, failure: Some(failure) },
    )
}

/// One transition of the lifecycle.
pub open spec fn next(phase: Phase, event: Event) -> (Phase, Action) {
    match (phase, event) {
        (Phase::Finished(code), _) => (Phase::Finished(code), Action::Exit { code, failure: None }),
        (Phase::Resolving, Event::EnvironmentResolved(Ok(environment))) => (
            Phase::Building,
            Action::BuildInterpreter { environment },
        ),
        (Phase::Resolving, Event::EnvironmentResolved(Err(e))) => fail(Failure::Configuration(e)),
        (Phase::Building, Event::InterpreterBuilt(Ok(_))) => (Phase::Running, Action::RunInterpreter),
        (Phase::Building, Event::InterpreterBuilt(Err(why))) => fail(Failure::Bootstrap(why)),
        (Phase::Running, Event::ScriptFinished(ScriptOutcome::Completed(code))) => (
            Phase::Finished(code),
            Action::Exit { code, failure: None },
        ),
        (Phase::Running, Event::ScriptFinished(ScriptOutcome::Failed(why))) => fail(
            Failure::Script(why),
        ),
        _ => fail(Failure::OutOfOrder),
    }
}

/// The phase reached and the actions asked for over a run of events.
pub open spec fn run(phase: Phase, events: Seq<Event>) -> (Phase, Seq<Action>)
    decreases events.len(),
{
    if events.len() == 0 {
        (phase, Seq::empty())
    } else {
        let (p, a) = next(phase, events[0]);
        let (q, rest) = run(p, events.drop_first());
        (q, seq![a] + rest)
    }
}

/// Takes the lifecycle one step: from `phase` and what the host reports,
/// the next phase and the action for the host.
pub fn step(phase: Phase, event: Event) -> (r: (Phase, Action))
    ensures
        r == next(phase, event),
{
    match (phase, event) {
        (Phase::Finished(code), _) => (Phase::Finished(code), Action::Exit { code, failure: None }),
        (Phase::Resolving, Event::EnvironmentResolved(Ok(environment))) => (
            Phase::Building,
            Action::BuildInterpreter { environment },
        ),
        (Phase::Resolving, Event::EnvironmentResolved(Err(e))) => failed(Failure::Configuration(e)),
        (Phase::Building, Event::InterpreterBuilt(Ok(_))) => (Phase::Running, Action::RunInterpreter),
        (Phase::Building, Event::InterpreterBuilt(Err(why))) => failed(Failure::Bootstrap(why)),
        (Phase::Running, Event::ScriptFinished(ScriptOutcome::Completed(code))) => (
            Phase::Finished(code),
            Action::Exit { code, failure: None },
        ),
        (Phase::Running, Event::ScriptFinished(ScriptOutcome::Failed(why))) => failed(
            Failure::Script(why),
        ),
        _ => failed(Failure::OutOfOrder),
    }
}

fn failed(failure: Failure) -> (r: (Phase, Action))
    ensures
        r == fail(failure),
{
    (Phase::Finished(FAILURE_EXIT_CODE), Action::Exit { code: FAILURE_EXIT_CODE, failure: Some(failure) })
}

/// Once finished, the lifecycle stays finished with the same code and asks
/// for nothing but that exit, whatever is reported.
pub proof fn finished_stays_finished(code: i32, events: Seq<Event>)
    ensures
        run(Phase::Finished(code), events).0 == Phase::Finished(code),
        run(Phase::Finished(code), events).1.len() == events.len(),
        forall|k: int|
            0 <= k < events.len() ==> #[trigger] run(Phase::Finished(code), events).1[k] == (Action::Exit {
                code,
                failure: None,
            }),
    decreases events.len(),
{
    if events.len() > 0 {
        finished_stays_finished(code, events.drop_first());
        let rest = run(Phase::Finished(code), events.drop_first()).1;
        assert forall|k: int| 0 <= k < events.len() implies #[trigger] run(
            Phase::Finished(code),
            events,
        ).1[k] == (Action::Exit { code, failure: None }) by {
            if k > 0 {
                assert(rest[k - 1] == (Action::Exit { code, failure: None }));
            }
        }
    }
}

/// In development mode with the variable unset, the host exits non-zero at
/// once and never asks for an interpreter, whatever is reported afterwards.
pub proof fn unset_variable_exits_without_interpreter(
    why: String,
    resolved: Result<EnvironmentDescriptor, ConfigurationError>,
    later: Seq<Event>,
)
    requires
        resolves_to(EnvironmentProbe::Development { venv: Err(why) }, resolved),
    ensures
        ({
            let (p, actions) = run(Phase::Resolving, seq![Event::EnvironmentResolved(resolved)] + later);
            &&& p == Phase::Finished(FAILURE_EXIT_CODE)
            &&& FAILURE_EXIT_CODE != 0
            &&& actions[0] matches Action::Exit { code, failure: Some(Failure::Configuration(_)) }
                && code != 0
            &&& forall|k: int| 0 <= k < actions.len() ==> !(#[trigger] actions[k] is BuildInterpreter)
        }),
{
    let events = seq![Event::EnvironmentResolved(resolved)] + later;
    assert(events.drop_first() =~= later);
    finished_stays_finished(FAILURE_EXIT_CODE, later);
    let actions = run(Phase::Resolving, events).1;
    let rest = run(Phase::Finished(FAILURE_EXIT_CODE), later).1;
    assert forall|k: int| 0 <= k < actions.len() implies !(#[trigger] actions[k] is BuildInterpreter) by {
        if k > 0 {
            assert(actions[k] == rest[k - 1]);
        }
    }
}

/// In standalone mode with the resource directory found, an interpreter that
/// builds and a script that completes with 0 make the host exit with 0.
pub proof fn standalone_success_exits_zero(
    dir: String,
    resolved: Result<EnvironmentDescriptor, ConfigurationError>,
)
    requires
        resolves_to(EnvironmentProbe::Standalone { resource_dir: Ok(dir) }, resolved),
    ensures
        ({
            let (p, actions) = run(
                Phase::Resolving,
                seq![
                    Event::EnvironmentResolved(resolved),
                    Event::InterpreterBuilt(Ok(())),
                    Event::ScriptFinished(ScriptOutcome::Completed(0)),
                ],
            );
            &&& p == Phase::Finished(0)
            &&& actions.len() == 3
            &&& actions[0] matches Action::BuildInterpreter {
                environment: EnvironmentDescriptor::StandaloneBundle(_),
            }
            &&& actions[1] == Action::RunInterpreter
            &&& actions[2] == (Action::Exit { code: 0, failure: None })
        }),
{
    let e0 = Event::EnvironmentResolved(resolved);
    let e1 = Event::InterpreterBuilt(Ok(()));
    let e2 = Event::ScriptFinished(ScriptOutcome::Completed(0));
    let events = seq![e0, e1, e2];
    assert(events.drop_first() =~= seq![e1, e2]);
    assert(seq![e1, e2].drop_first() =~= seq![e2]);
    assert(seq![e2].drop_first() =~= Seq::<Event>::empty());
    assert(next(Phase::Running, e2) == (Phase::Finished(0), Action::Exit { code: 0, failure: None }));
    assert(run(Phase::Finished(0), seq![e2].drop_first()) == (Phase::Finished(0), Seq::<Action>::empty()));
    let r3 = run(Phase::Running, seq![e2]);
    assert(r3.0 == Phase::Finished(0));
    assert(r3.1 =~= seq![Action::Exit { code: 0, failure: None }]);
    let r2 = run(Phase::Building, seq![e1, e2]);
    assert(r2.1 =~= seq![Action::RunInterpreter, Action::Exit { code: 0, failure: None }]);
    let r1 = run(Phase::Resolving, events);
    assert(r1.1 =~= seq![next(Phase::Resolving, e0).1] + r2.1);
}

} // verus!
