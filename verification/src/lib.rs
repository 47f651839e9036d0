//! Replace the currently running process with another program, or come as
//! close to that as the host operating system allows.
//!
//! On exec-capable systems the operation hands the current process image to
//! the target program in place and never returns on success.  Elsewhere the
//! observable contract is emulated: the parent suppresses console interrupts
//! so the child receives them, spawns the child with inherited stdio, waits,
//! and terminates itself with the child's exit code.
//!
//! This crate holds the decision logic of both strategies, verified: the
//! command model, the error taxonomy, the exit-code translation, and the
//! ordered emulation session.  The operating-system calls themselves —
//! image replacement, handler registration, spawn and wait, termination —
//! are performed by an unverified driver around this crate, which carries
//! out each prescribed action and reports back what happened.

use vstd::prelude::*;

pub mod command;
pub mod emulate;
pub mod error;

pub use crate::command::CommandSpec;
pub use crate::emulate::{
    ChildStatus, EmulateAction, EmulateEvent, EmulateState, FALLBACK_EXIT_CODE, Transition,
    emulate_step, parent_exit_code,
};
pub use crate::error::{OsError, ReplacementError};

verus! {

/// Extension operation on a command: replace the current process with the
/// command's program, or emulate that replacement.
///
/// On success the call never returns — either the process image has been
/// handed over in place, or the parent has terminated with the child's exit
/// code — and no destructor in the calling process runs.  The return type
/// therefore carries no success value: a call returns only the error that
/// explains why replacement failed, and the calling process is still the
/// original one afterwards, possibly with altered interrupt dispositions.
pub trait CommandExt {
    #[must_use]
    fn cross_exec(&mut self) -> ReplacementError;
}

/// On the exec-capable path the image-replacement call returns only on
/// failure, and a failure there means the target program never took over:
/// it is reported as a launch failure carrying the operating system's error.
pub fn exec_failure(os: OsError) -> (e: ReplacementError)
    ensures
        e == (ReplacementError::LaunchFailed { os }),
{
    ReplacementError::LaunchFailed { os }
}

} // verus!
