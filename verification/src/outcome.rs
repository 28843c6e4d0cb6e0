//! The failure taxonomy of the operations layer.  Every operation returns
//! either a human-readable success message or a failure carrying one of
//! these categories; no failure is swallowed and none is retried beyond the
//! explicit two-tier fallback of the engines.

use vstd::prelude::*;

verus! {

/// The coarse category of an operation failure.
#[derive(PartialEq, Eq, Structural, Clone, Copy, Debug)]
pub enum FailureKind {
    /// A required external tool is not installed or not on the search path.
    Environment,
    /// The target path is not a repository of the distributed backend.
    NotARepository,
    /// No ancestor of the target path is a working copy of the centralized
    /// backend.
    NotAWorkingCopy,
    /// The target path does not exist at all.
    NotFound,
    /// A network operation was rejected by the remote after the whole
    /// credential chain was exhausted.
    Authentication,
    /// A commit was attempted with a tree identical to the current head.
    NoChanges,
    /// A fast-forward-only fallback pull found diverged histories.
    Divergence,
    /// A required input (URL, commit message, file list) was empty.
    Validation,
    /// An external binary could not be spawned at all.
    ProcessLaunch,
    /// None of the known categories matched.
    Unknown,
}

/// A classified failure with its verbatim diagnostic text.
#[derive(Clone, Debug)]
pub struct VcsFailure {
    pub kind: FailureKind,
    pub message: String,
}

/// The operation failed with the given category.
pub open spec fn failed_with<T>(r: Result<T, VcsFailure>, k: FailureKind) -> bool {
    match r {
        Result::Ok(_) => false,
        Result::Err(e) => e.kind == k,
    }
}

/// The success text of an operation outcome (empty for a failure).
pub open spec fn ok_text(r: Result<String, VcsFailure>) -> Seq<char> {
    match r {
        Result::Ok(m) => m@,
        Result::Err(_) => Seq::<char>::empty(),
    }
}

/// The diagnostic text of a failed outcome (empty for a success).
pub open spec fn err_text<T>(r: Result<T, VcsFailure>) -> Seq<char> {
    match r {
        Result::Ok(_) => Seq::<char>::empty(),
        Result::Err(e) => e.message@,
    }
}

impl VcsFailure {
    /// Builds a failure of the given category around the given text.
    pub fn new(kind: FailureKind, message: String) -> (r: VcsFailure)
        ensures
            r.kind == kind,
            r.message == message,
    {
        VcsFailure { kind, message }
    }
}

} // verus!
