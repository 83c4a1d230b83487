//! The startup of the desktop shell as a small state machine.
//!
//! Building the application (window system, plugins, generated context) is
//! outside work: the caller performs it and reports what came of it as a
//! [`BuildOutcome`]. [`Phase::on_build`] decides what happens next and hands
//! back an [`Action`]: enter the event loop, or terminate the process with a
//! diagnostic. A failed startup is fatal and never retried.
use vstd::prelude::*;
use vstd::string::*;

verus! {

/// Exit status of a process whose startup failed: the status that Rust's
/// runtime gives a process that stops on a panic.
pub const STARTUP_FAILURE_STATUS: i32 = 101;

/// The note that opens every startup-failure diagnostic.
pub open spec fn failure_note() -> Seq<char> {
    "failed to run tauri app"@
}

/// The full diagnostic for a startup that failed with `detail`.
pub open spec fn diagnostic_text(detail: Seq<char>) -> Seq<char> {
    failure_note() + ": "@ + detail
}

/// Where the application stands in its startup.
#[derive(Clone, Copy, Debug, PartialEq, Eq, Structural)]
pub enum Phase {
    /// The entry point has not yet tried to build the application.
    NotStarted,
    /// The application was built and control has passed into its event loop.
    Running,
    /// Building the application failed; the process is terminating.
    Failed,
}

/// What came of building the application.
#[derive(Debug)]
pub enum BuildOutcome {
    /// The application was built and is ready to run.
    Built,
    /// Building failed; `detail` describes the error.
    Failed { detail: String },
}

/// What the caller must do next.
#[derive(Debug)]
pub enum Action {
    /// Hand control to the application's event loop.
    EnterEventLoop,
    /// Print `diagnostic` and terminate the process with `status`.
    Exit { status: i32, diagnostic: String },
    /// Nothing: startup was already decided.
    Ignore,
}

/// The mathematical model of an [`Action`].
pub enum ActionModel {
    EnterEventLoop,
    Exit { status: int, diagnostic: Seq<char> },
    Ignore,
}

impl View for Action {
    type V = ActionModel;

    open spec fn view(&self) -> ActionModel {
        match self {
            Action::EnterEventLoop => ActionModel::EnterEventLoop,
            Action::Exit { status, diagnostic } => ActionModel::Exit {
                status: *status as int,
                diagnostic: diagnostic@,
            },
            Action::Ignore => ActionModel::Ignore,
        }
    }
}

/// The phase that follows `p` once building has given `o`.
pub open spec fn phase_after(p: Phase, o: BuildOutcome) -> Phase {
    match p {
        Phase::NotStarted => match o {
            BuildOutcome::Built => Phase::Running,
            BuildOutcome::Failed { .. } => Phase::Failed,
        },
        _ => p,
    }
}

/// The action owed in phase `p` once building has given `o`.
pub open spec fn action_after(p: Phase, o: BuildOutcome) -> ActionModel {
    match p {
        Phase::NotStarted => match o {
            BuildOutcome::Built => ActionModel::EnterEventLoop,
            BuildOutcome::Failed { detail } => ActionModel::Exit {
                status: STARTUP_FAILURE_STATUS as int,
                diagnostic: diagnostic_text(detail@),
            },
        },
        _ => ActionModel::Ignore,
    }
}

/// Whether `a` tells the caller to stop the process with a non-zero status
/// and a diagnostic that opens with the startup-failure note.
pub open spec fn is_fatal_exit(a: ActionModel) -> bool {
    a matches ActionModel::Exit { status, diagnostic } && status != 0
        && failure_note().is_prefix_of(diagnostic)
}

/// Invoking the entry point ends in one of exactly two ways, whatever
/// building the application gives: either the phase becomes `Running` and
/// control passes into the event loop, or the phase becomes `Failed` and the
/// process is told to stop with a non-zero status and a diagnostic that names
/// the failed startup.
pub proof fn launch_runs_or_fails(o: BuildOutcome)
    ensures
        phase_after(Phase::initial(), o) == Phase::Running
            <==> action_after(Phase::initial(), o) == ActionModel::EnterEventLoop,
        phase_after(Phase::initial(), o) == Phase::Failed
            <==> is_fatal_exit(action_after(Phase::initial(), o)),
        phase_after(Phase::initial(), o) == Phase::Running
            || phase_after(Phase::initial(), o) == Phase::Failed,
{
    reveal_strlit("failed to run tauri app");
    if let BuildOutcome::Failed { detail } = o {
        let d = diagnostic_text(detail@);
        assert(d.subrange(0, failure_note().len() as int) =~= failure_note());
    }
}

impl Phase {
    /// The phase before the entry point has run, in specifications.
    pub open spec fn spec_initial() -> Phase {
        Phase::NotStarted
    }

    /// The phase of an application whose entry point has not run yet.
    #[verifier::when_used_as_spec(spec_initial)]
    pub fn initial() -> (r: Phase)
        ensures
            r == Phase::NotStarted,
    {
        Phase::NotStarted
    }

    /// Takes the outcome of building the application and returns what the
    /// caller must do. Only the first outcome, in `NotStarted`, moves the
    /// phase: to `Running` when the application was built, to `Failed`
    /// otherwise. Later outcomes change nothing and ask for nothing.
    pub fn on_build(&mut self, outcome: &BuildOutcome) -> (r: Action)
        ensures
            *final(self) == phase_after(*old(self), *outcome),
            r@ == action_after(*old(self), *outcome),
    {
        match *self {
            Phase::NotStarted => match outcome {
                BuildOutcome::Built => {
                    *self = Phase::Running;
                    Action::EnterEventLoop
                },
                BuildOutcome::Failed { detail } => {
                    *self = Phase::Failed;
                    Action::Exit {
                        status: STARTUP_FAILURE_STATUS,
                        diagnostic: startup_diagnostic(detail.as_str()),
                    }
                },
            },
            _ => Action::Ignore,
        }
    }
}

/// The diagnostic printed when building the application failed with `detail`.
pub fn startup_diagnostic(detail: &str) -> (r: String)
    ensures
        r@ == diagnostic_text(detail@),
{
    let mut r = String::from_str("failed to run tauri app");
    r.append(": ");
    r.append(detail);
    proof {
        reveal_strlit("failed to run tauri app");
        reveal_strlit(": ");
    }
    r
}

} // verus!
