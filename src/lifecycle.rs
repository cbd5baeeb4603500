//! The decisions of the thread that owns the keyboard hook: install it, pump
//! messages until asked to stop, then remove it. The thread itself performs each
//! action and reports what came of it as the next event.

use vstd::prelude::*;

verus! {

/// How long the pump sleeps when no message is pending, in milliseconds.
pub const IDLE_SLEEP_MS: u64 = 10;

/// Where the hook thread stands.
#[derive(Clone, Copy, Debug, PartialEq, Eq, Structural)]
pub enum HookPhase {
    Uninstalled,
    Installed,
    Running,
    ShuttingDown,
    /// The thread is done; `installed` says whether a hook was ever registered.
    Finished { installed: bool },
}

/// What a poll of the message queue found.
#[derive(Clone, Copy, Debug, PartialEq, Eq, Structural)]
pub enum PolledMessage {
    Nothing,
    Quit,
    Other,
}

/// What came of the last action.
#[derive(Clone, Copy, Debug, PartialEq, Eq, Structural)]
pub enum LoopEvent {
    Begin,
    InstallSucceeded,
    InstallFailed,
    HandlePublished,
    RunFlag { running: bool },
    Polled { message: PolledMessage },
    Dispatched,
    Slept,
    RunFlagCleared,
    Unhooked,
    HandleCleared,
}

/// What the hook thread is to do next.
#[derive(Clone, Copy, Debug, PartialEq, Eq, Structural)]
pub enum LoopAction {
    /// Register the keyboard hook with the system.
    InstallHook,
    /// Make the hook handle visible to the callback.
    PublishHandle,
    /// Read the shared running flag.
    CheckRunning,
    /// Take one pending message off the queue, if any.
    PollMessage,
    /// Translate and dispatch the message just taken.
    DispatchMessage,
    Sleep { millis: u64 },
    /// Set the shared running flag to false.
    ClearRunFlag,
    /// Deregister the hook; a failure is reported, not retried.
    RemoveHook,
    /// Withdraw the hook handle from the callback.
    ClearHandle,
    /// Leave the thread; `installed` is false where registration failed.
    Exit { installed: bool },
}

/// Phases in the order the thread passes through them.
pub open spec fn phase_rank(p: HookPhase) -> int {
    match p {
        HookPhase::Uninstalled => 0,
        HookPhase::Installed => 1,
        HookPhase::Running => 2,
        HookPhase::ShuttingDown => 3,
        HookPhase::Finished { .. } => 4,
    }
}

/// The action a phase repeats when it receives an event it does not expect.
pub open spec fn resume_action(p: HookPhase) -> LoopAction {
    match p {
        HookPhase::Uninstalled => LoopAction::InstallHook,
        HookPhase::Installed => LoopAction::PublishHandle,
        HookPhase::Running => LoopAction::CheckRunning,
        HookPhase::ShuttingDown => LoopAction::RemoveHook,
        HookPhase::Finished { installed } => LoopAction::Exit { installed },
    }
}

/// The next phase and action after `event` in `phase`.
pub open spec fn lifecycle_spec(phase: HookPhase, event: LoopEvent) -> (HookPhase, LoopAction) {
    match (phase, event) {
        (HookPhase::Uninstalled, LoopEvent::Begin) => (HookPhase::Uninstalled, LoopAction::InstallHook),
        (HookPhase::Uninstalled, LoopEvent::InstallFailed) => (
            HookPhase::Finished { installed: false },
            LoopAction::Exit { installed: false },
        ),
        (HookPhase::Uninstalled, LoopEvent::InstallSucceeded) => (
            HookPhase::Installed,
            LoopAction::PublishHandle,
        ),
        (HookPhase::Installed, LoopEvent::HandlePublished) => (
            HookPhase::Running,
            LoopAction::CheckRunning,
        ),
        (HookPhase::Running, LoopEvent::RunFlag { running }) => {
            if running {
                (HookPhase::Running, LoopAction::PollMessage)
            } else {
                (HookPhase::ShuttingDown, LoopAction::RemoveHook)
            }
        },
        (HookPhase::Running, LoopEvent::Polled { message }) => match message {
            PolledMessage::Nothing => (
                HookPhase::Running,
                LoopAction::Sleep { millis: IDLE_SLEEP_MS },
            ),
            PolledMessage::Quit => (HookPhase::ShuttingDown, LoopAction::ClearRunFlag),
            PolledMessage::Other => (HookPhase::Running, LoopAction::DispatchMessage),
        },
        (HookPhase::Running, LoopEvent::Dispatched) => (HookPhase::Running, LoopAction::CheckRunning),
        (HookPhase::Running, LoopEvent::Slept) => (HookPhase::Running, LoopAction::CheckRunning),
        (HookPhase::ShuttingDown, LoopEvent::RunFlagCleared) => (
            HookPhase::ShuttingDown,
            LoopAction::RemoveHook,
        ),
        (HookPhase::ShuttingDown, LoopEvent::Unhooked) => (
            HookPhase::ShuttingDown,
            LoopAction::ClearHandle,
        ),
        (HookPhase::ShuttingDown, LoopEvent::HandleCleared) => (
            HookPhase::Finished { installed: true },
            LoopAction::Exit { installed: true },
        ),
        _ => (phase, resume_action(phase)),
    }
}

/// Decides the hook thread's next phase and action.
pub fn lifecycle_step(phase: HookPhase, event: LoopEvent) -> (r: (HookPhase, LoopAction))
    ensures
        r == lifecycle_spec(phase, event),
        phase_rank(r.0) >= phase_rank(phase),
        r.1 is Exit <==> r.0 is Finished,
{
    match (phase, event) {
        (HookPhase::Uninstalled, LoopEvent::Begin) => (HookPhase::Uninstalled, LoopAction::InstallHook),
        (HookPhase::Uninstalled, LoopEvent::InstallFailed) => (
            HookPhase::Finished { installed: false },
            LoopAction::Exit { installed: false },
        ),
        (HookPhase::Uninstalled, LoopEvent::InstallSucceeded) => (
            HookPhase::Installed,
            LoopAction::PublishHandle,
        ),
        (HookPhase::Installed, LoopEvent::HandlePublished) => (
            HookPhase::Running,
            LoopAction::CheckRunning,
        ),
        (HookPhase::Running, LoopEvent::RunFlag { running }) => {
            if running {
                (HookPhase::Running, LoopAction::PollMessage)
            } else {
                (HookPhase::ShuttingDown, LoopAction::RemoveHook)
            }
        },
        (HookPhase::Running, LoopEvent::Polled { message }) => match message {
            PolledMessage::Nothing => (
                HookPhase::Running,
                LoopAction::Sleep { millis: IDLE_SLEEP_MS },
            ),
            PolledMessage::Quit => (HookPhase::ShuttingDown, LoopAction::ClearRunFlag),
            PolledMessage::Other => (HookPhase::Running, LoopAction::DispatchMessage),
        },
        (HookPhase::Running, LoopEvent::Dispatched) => (HookPhase::Running, LoopAction::CheckRunning),
        (HookPhase::Running, LoopEvent::Slept) => (HookPhase::Running, LoopAction::CheckRunning),
        (HookPhase::ShuttingDown, LoopEvent::RunFlagCleared) => (
            HookPhase::ShuttingDown,
            LoopAction::RemoveHook,
        ),
        (HookPhase::ShuttingDown, LoopEvent::Unhooked) => (
            HookPhase::ShuttingDown,
            LoopAction::ClearHandle,
        ),
        (HookPhase::ShuttingDown, LoopEvent::HandleCleared) => (
            HookPhase::Finished { installed: true },
            LoopAction::Exit { installed: true },
        ),
        _ => {
            let action = match phase {
                HookPhase::Uninstalled => LoopAction::InstallHook,
                HookPhase::Installed => LoopAction::PublishHandle,
                HookPhase::Running => LoopAction::CheckRunning,
                HookPhase::ShuttingDown => LoopAction::RemoveHook,
                HookPhase::Finished { installed } => LoopAction::Exit { installed },
            };
            (phase, action)
        },
    }
}

} // verus!
