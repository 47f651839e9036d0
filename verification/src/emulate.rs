//! The emulate path: spawn the child, wait for it, and terminate the parent
//! in its stead, with console interrupts kept away from the parent.
//!
//! The operating-system work — registering the interrupt handler, spawning
//! and waiting, terminating the parent — cannot be performed here.  An
//! unverified driver carries out each prescribed action and reports what
//! happened as an event.  This module holds every decision of the session:
//! which action comes next, in what order the steps run, and which exit code
//! or error ends the session.

use vstd::prelude::*;

use crate::error::{OsError, ReplacementError};

verus! {

/// The exit code the parent uses when the child terminated without a
/// conventional exit code (for instance, killed by a signal on systems that
/// distinguish such an end).
pub const FALLBACK_EXIT_CODE: i32 = 128;

/// How the child ended: with a conventional exit code, or abnormally, so
/// that no exit code is available.
#[derive(Debug, Clone, Copy, PartialEq, Eq)]
pub enum ChildStatus {
    Exited { code: i32 },
    Abnormal,
}

/// The exit code the parent must terminate with for a given child status:
/// the child's own code when there is one, the fixed fallback otherwise.
pub open spec fn exit_code_of(status: ChildStatus) -> i32 {
    match status {
        ChildStatus::Exited { code } => code,
        ChildStatus::Abnormal => FALLBACK_EXIT_CODE,
    }
}

/// Exit-code translation: pass the child's code through unchanged, and
/// substitute the fixed fallback where the child left none.
pub fn parent_exit_code(status: ChildStatus) -> (code: i32)
    ensures
        code == exit_code_of(status),
{
    match status {
        ChildStatus::Exited { code } => code,
        ChildStatus::Abnormal => FALLBACK_EXIT_CODE,
    }
}

/// Where an emulation session stands.
#[derive(Debug, Clone, Copy, PartialEq, Eq, Structural)]
pub enum EmulateState {
    /// Nothing has happened yet: the interrupt handler must be installed
    /// before any child exists.
    AwaitingHandler,
    /// The handler is in place; the child is to be spawned and awaited.
    AwaitingChild,
    /// The session is over: the driver has been told to terminate the
    /// parent, or to report an error to the caller.
    Finished,
}

/// What the driver observed while carrying out the last prescribed action.
#[derive(Debug, Clone, PartialEq, Eq)]
pub enum EmulateEvent {
    /// The interrupt handler was registered.
    HandlerInstalled,
    /// Registering the interrupt handler failed.
    HandlerFailed { os: OsError },
    /// The child ran and terminated with the given status.
    ChildCompleted { status: ChildStatus },
    /// The child could not be created.
    LaunchFailed { os: OsError },
    /// The child was created, but waiting for its completion status failed.
    WaitFailed { os: OsError },
}

/// What the driver must do next.
#[derive(Debug, Clone, PartialEq, Eq)]
pub enum EmulateAction {
    /// Register a process-wide handler that ignores every console interrupt
    /// in the parent, so that interrupts reach the child instead of
    /// terminating the parent prematurely.
    InstallInterruptHandler,
    /// Spawn the child from the command specification, stdio inherited as
    /// configured, and block until it terminates.
    LaunchAndWait,
    /// Terminate the parent process with this exit code, unconditionally.
    TerminateParent { code: i32 },
    /// Replacement failed: hand this error to the caller and stop.
    Report { error: ReplacementError },
}

/// One step of the session: the state it moves to and the action prescribed.
#[derive(Debug, Clone, PartialEq, Eq)]
pub struct Transition {
    pub next: EmulateState,
    pub action: EmulateAction,
}

/// Which events can come back in a given state: handler outcomes only while
/// the handler step is pending, child outcomes only while a child run is
/// awaited, and nothing once the session is finished.
pub open spec fn event_fits(state: EmulateState, event: EmulateEvent) -> bool {
    match (state, event) {
        (EmulateState::AwaitingHandler, EmulateEvent::HandlerInstalled) => true,
        (EmulateState::AwaitingHandler, EmulateEvent::HandlerFailed { .. }) => true,
        (EmulateState::AwaitingChild, EmulateEvent::ChildCompleted { .. }) => true,
        (EmulateState::AwaitingChild, EmulateEvent::LaunchFailed { .. }) => true,
        (EmulateState::AwaitingChild, EmulateEvent::WaitFailed { .. }) => true,
        _ => false,
    }
}

/// The transition relation of an emulation session.
///
/// A session begins in `AwaitingHandler`, whose pending action is the
/// handler installation.  A successful installation leads to the one launch
/// of the child; the child's completion leads to the parent's termination
/// with the translated exit code; every failure ends the session with the
/// error of the sub-step that failed.
pub open spec fn transition(state: EmulateState, event: EmulateEvent) -> Transition
    recommends
        event_fits(state, event),
{
    match (state, event) {
        (EmulateState::AwaitingHandler, EmulateEvent::HandlerInstalled) => Transition {
            next: EmulateState::AwaitingChild,
            action: EmulateAction::LaunchAndWait,
        },
        (EmulateState::AwaitingHandler, EmulateEvent::HandlerFailed { os }) => Transition {
            next: EmulateState::Finished,
            action: EmulateAction::Report {
                error: ReplacementError::HandlerInstallationFailed { os },
            },
        },
        (EmulateState::AwaitingChild, EmulateEvent::ChildCompleted { status }) => Transition {
            next: EmulateState::Finished,
            action: EmulateAction::TerminateParent { code: exit_code_of(status) },
        },
        (EmulateState::AwaitingChild, EmulateEvent::LaunchFailed { os }) => Transition {
            next: EmulateState::Finished,
            action: EmulateAction::Report { error: ReplacementError::LaunchFailed { os } },
        },
        (EmulateState::AwaitingChild, EmulateEvent::WaitFailed { os }) => Transition {
            next: EmulateState::Finished,
            action: EmulateAction::Report { error: ReplacementError::StatusRetrievalFailed { os } },
        },
        _ => arbitrary(),
    }
}

impl EmulateState {
    /// Whether an event can come back in this state — the executable mirror
    /// of `event_fits`, for a driver to check before advancing the session.
    pub fn accepts(&self, event: &EmulateEvent) -> (b: bool)
        ensures
            b == event_fits(*self, *event),
    {
        match (self, event) {
            (EmulateState::AwaitingHandler, EmulateEvent::HandlerInstalled) => true,
            (EmulateState::AwaitingHandler, EmulateEvent::HandlerFailed { .. }) => true,
            (EmulateState::AwaitingChild, EmulateEvent::ChildCompleted { .. }) => true,
            (EmulateState::AwaitingChild, EmulateEvent::LaunchFailed { .. }) => true,
            (EmulateState::AwaitingChild, EmulateEvent::WaitFailed { .. }) => true,
            _ => false,
        }
    }
}

/// Advance the session by one step: consume the event observed for the
/// pending action and prescribe what the driver must do next.
pub fn emulate_step(state: EmulateState, event: EmulateEvent) -> (step: Transition)
    requires
        event_fits(state, event),
    ensures
        step == transition(state, event),
{
    match (state, event) {
        (EmulateState::AwaitingHandler, EmulateEvent::HandlerInstalled) => Transition {
            next: EmulateState::AwaitingChild,
            action: EmulateAction::LaunchAndWait,
        },
        (EmulateState::AwaitingHandler, EmulateEvent::HandlerFailed { os }) => Transition {
            next: EmulateState::Finished,
            action: EmulateAction::Report {
                error: ReplacementError::HandlerInstallationFailed { os },
            },
        },
        (EmulateState::AwaitingChild, EmulateEvent::ChildCompleted { status }) => Transition {
            next: EmulateState::Finished,
            action: EmulateAction::TerminateParent { code: parent_exit_code(status) },
        },
        (EmulateState::AwaitingChild, EmulateEvent::LaunchFailed { os }) => Transition {
            next: EmulateState::Finished,
            action: EmulateAction::Report { error: ReplacementError::LaunchFailed { os } },
        },
        (EmulateState::AwaitingChild, EmulateEvent::WaitFailed { os }) => Transition {
            next: EmulateState::Finished,
            action: EmulateAction::Report { error: ReplacementError::StatusRetrievalFailed { os } },
        },
        _ => unreached(),
    }
}

/// Exit-code pass-through: in every emulation session in which the handler
/// was installed and the child then terminated with an exit code of its own,
/// the session prescribes exactly one child launch and then has the parent
/// terminate with that same code.
pub proof fn lemma_exit_code_pass_through(code: i32)
    ensures
        ({
            let installed = transition(EmulateState::AwaitingHandler, EmulateEvent::HandlerInstalled);
            let done = transition(
                installed.next,
                EmulateEvent::ChildCompleted { status: ChildStatus::Exited { code } },
            );
            &&& installed.action == EmulateAction::LaunchAndWait
            &&& done.action == (EmulateAction::TerminateParent { code })
            &&& done.next == EmulateState::Finished
        }),
{
}

/// Fallback: in a session whose child terminated abnormally, with no exit
/// code available, the parent is told to terminate with the fixed fallback
/// code rather than to fail.
pub proof fn lemma_fallback_exit_code()
    ensures
        ({
            let installed = transition(EmulateState::AwaitingHandler, EmulateEvent::HandlerInstalled);
            let done = transition(
                installed.next,
                EmulateEvent::ChildCompleted { status: ChildStatus::Abnormal },
            );
            &&& done.action == (EmulateAction::TerminateParent { code: FALLBACK_EXIT_CODE })
            &&& done.next == EmulateState::Finished
        }),
{
}

/// Interrupts are rerouted before any child exists: the only step of any
/// session that prescribes launching the child is the one that follows the
/// successful installation of the interrupt handler.
pub proof fn lemma_launch_only_after_handler(state: EmulateState, event: EmulateEvent)
    requires
        event_fits(state, event),
        transition(state, event).action == EmulateAction::LaunchAndWait,
    ensures
        state == EmulateState::AwaitingHandler,
        event == EmulateEvent::HandlerInstalled,
{
}

} // verus!
