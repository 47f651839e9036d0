//! Errors reported when process replacement fails.
//!
//! The replace operation has no success value: either it never returns, or it
//! yields exactly one of these errors and the calling process keeps running.

use vstd::prelude::*;

verus! {

/// The operating-system error behind a failed step: the raw error code where
/// the system gave one, and the system's message text.
#[derive(Debug, Clone, PartialEq, Eq)]
pub struct OsError {
    pub code: Option<i32>,
    pub message: String,
}

/// Why replacement failed, by the sub-step that failed.
///
/// Every failure is terminal for the call: there is no retry and no rollback,
/// and the interrupt disposition of the process may already have been altered
/// by the steps that succeeded before the failing one.
#[derive(Debug, Clone, PartialEq, Eq)]
pub enum ReplacementError {
    /// The emulate path could not register the handler that keeps console
    /// interrupts away from the parent.  No child was spawned.
    HandlerInstallationFailed { os: OsError },
    /// The child process could not be created — or, on the exec-capable
    /// path, the image-replacement call itself failed, which means the same
    /// thing to the caller: the target program never took over.
    LaunchFailed { os: OsError },
    /// The child was spawned, but waiting for it or reading its completion
    /// status failed.
    StatusRetrievalFailed { os: OsError },
}

/// The context text naming the sub-step that a given error came from.
pub open spec fn context_of(e: ReplacementError) -> Seq<char> {
    match e {
        ReplacementError::HandlerInstallationFailed { .. } => "failed to set interrupt handler"@,
        ReplacementError::LaunchFailed { .. } => "failed to launch the program"@,
        ReplacementError::StatusRetrievalFailed { .. } => "failed to read the child's exit status"@,
    }
}

/// The operating-system error inside a given replacement error.
pub open spec fn os_of(e: ReplacementError) -> OsError {
    match e {
        ReplacementError::HandlerInstallationFailed { os } => os,
        ReplacementError::LaunchFailed { os } => os,
        ReplacementError::StatusRetrievalFailed { os } => os,
    }
}

impl ReplacementError {
    /// A human-readable line naming the sub-step that failed.
    pub fn context(&self) -> (s: &'static str)
        ensures
            s@ == context_of(*self),
    {
        match self {
            ReplacementError::HandlerInstallationFailed { .. } => "failed to set interrupt handler",
            ReplacementError::LaunchFailed { .. } => "failed to launch the program",
            ReplacementError::StatusRetrievalFailed { .. } => "failed to read the child's exit status",
        }
    }

    /// The operating-system error behind this failure.
    pub fn os(&self) -> (r: &OsError)
        ensures
            *r == os_of(*self),
    {
        match self {
            ReplacementError::HandlerInstallationFailed { os } => os,
            ReplacementError::LaunchFailed { os } => os,
            ReplacementError::StatusRetrievalFailed { os } => os,
        }
    }
}

} // verus!
