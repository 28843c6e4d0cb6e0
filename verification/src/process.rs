//! The process-runner model.  The host around the crate spawns external
//! binaries; what the core sees of such a run is a plain `ProcessOutcome`
//! value: either the captured output and exit state of a process that ran to
//! completion, or the operating-system error of one that could not be
//! spawned.  A non-zero exit is a normal outcome here, distinct from a
//! launch failure.

use vstd::prelude::*;
use crate::outcome::{FailureKind, VcsFailure};

verus! {

/// What became of one external command.
#[derive(Clone, Debug)]
pub enum ProcessOutcome {
    /// The process ran to completion; `success` is its exit status.
    Completed { success: bool, stdout: String, stderr: String },
    /// The process could not be spawned; `error` is the OS error text.
    LaunchFailed { error: String },
}

/// The outcome is a completed process with a successful exit status.
pub open spec fn outcome_succeeded(p: ProcessOutcome) -> bool {
    p matches ProcessOutcome::Completed { success: true, .. }
}

/// The standard output of a completed process, or empty.
pub open spec fn outcome_stdout(p: ProcessOutcome) -> Seq<char> {
    match p {
        ProcessOutcome::Completed { stdout, .. } => stdout@,
        ProcessOutcome::LaunchFailed { .. } => Seq::<char>::empty(),
    }
}

/// The diagnostic text of a failed outcome: standard error of a completed
/// process, or the OS error of one that never launched.
pub open spec fn outcome_diagnostic(p: ProcessOutcome) -> Seq<char> {
    match p {
        ProcessOutcome::Completed { stderr, .. } => stderr@,
        ProcessOutcome::LaunchFailed { error } => error@,
    }
}

impl ProcessOutcome {
    /// Exec view of `outcome_succeeded`.
    pub fn succeeded(&self) -> (b: bool)
        ensures
            b == outcome_succeeded(*self),
    {
        match self {
            ProcessOutcome::Completed { success, .. } => *success,
            ProcessOutcome::LaunchFailed { .. } => false,
        }
    }
}

/// A request for the host to run one external command: a program name, its
/// ordered arguments, and the directory to run it in.  The engines build
/// these; the host executes them and hands back a `ProcessOutcome`.
#[derive(Clone, Debug)]
pub struct CommandRequest {
    pub program: String,
    pub args: Vec<String>,
    pub cwd: String,
}

/// The spawn category for a failure that never launched: keeps the OS error
/// text verbatim under the `ProcessLaunch` category.
pub fn launch_failure(error: &String) -> (r: VcsFailure)
    ensures
        r.kind == FailureKind::ProcessLaunch,
        r.message == *error,
{
    VcsFailure::new(FailureKind::ProcessLaunch, error.clone())
}

} // verus!
