use vstd::prelude::*;
use vstd::string::StringExecFns;

use crate::command::{InterruptibleFnError, PatcherCommand};
use crate::status::PatchingStatus;

verus! {

/// What the patcher core is doing.
#[derive(Debug, Clone, Copy, PartialEq, Eq, Structural)]
pub enum ControllerState {
    Idle,
    Updating,
    Applying,
    Terminated,
}

/// What the core must do on a command.
#[derive(Debug, PartialEq, Eq)]
pub enum ControllerAction {
    /// Take the lock and run the whole update.
    RunUpdate,
    /// Take the lock and apply the archive at this path.
    RunManualPatch(String),
    /// Delete the cache file.
    DeleteCache,
    /// Nothing.
    Ignore,
    /// Stop the running task at its next suspension point.
    Cancel,
    /// Leave the command loop.
    Terminate,
    /// Stop the running task, then leave the command loop.
    CancelAndTerminate,
}

/// The controller's transition table; a front end that went away counts as
/// `Quit`.
pub open spec fn transition(state: ControllerState, cmd: Option<PatcherCommand>) -> (ControllerState, ControllerAction) {
    let quit = match cmd {
        Some(PatcherCommand::Quit) => true,
        None => true,
        _ => false,
    };
    match state {
        ControllerState::Idle => if quit {
            (ControllerState::Terminated, ControllerAction::Terminate)
        } else {
            match cmd {
                Some(PatcherCommand::StartUpdate) => (ControllerState::Updating, ControllerAction::RunUpdate),
                Some(PatcherCommand::ManualPatch(path)) => (
                    ControllerState::Applying,
                    ControllerAction::RunManualPatch(path),
                ),
                Some(PatcherCommand::ResetCache) => (ControllerState::Idle, ControllerAction::DeleteCache),
                _ => (ControllerState::Idle, ControllerAction::Ignore),
            }
        },
        ControllerState::Updating | ControllerState::Applying => if quit {
            (ControllerState::Terminated, ControllerAction::CancelAndTerminate)
        } else if cmd == Some(PatcherCommand::CancelUpdate) {
            (ControllerState::Idle, ControllerAction::Cancel)
        } else {
            (state, ControllerAction::Ignore)
        },
        ControllerState::Terminated => (ControllerState::Terminated, ControllerAction::Ignore),
    }
}

/// One step of the controller on a received command (`None` when the
/// front end's sender is gone).
pub fn controller_step(state: ControllerState, cmd: Option<PatcherCommand>) -> (r: (
    ControllerState,
    ControllerAction,
))
    ensures
        r == transition(state, cmd),
{
    let quit = match cmd {
        Some(PatcherCommand::Quit) => true,
        None => true,
        _ => false,
    };
    match state {
        ControllerState::Idle => {
            if quit {
                (ControllerState::Terminated, ControllerAction::Terminate)
            } else {
                match cmd {
                    Some(PatcherCommand::StartUpdate) => (ControllerState::Updating, ControllerAction::RunUpdate),
                    Some(PatcherCommand::ManualPatch(path)) => (
                        ControllerState::Applying,
                        ControllerAction::RunManualPatch(path),
                    ),
                    Some(PatcherCommand::ResetCache) => (ControllerState::Idle, ControllerAction::DeleteCache),
                    _ => (ControllerState::Idle, ControllerAction::Ignore),
                }
            }
        },
        ControllerState::Updating | ControllerState::Applying => {
            if quit {
                (ControllerState::Terminated, ControllerAction::CancelAndTerminate)
            } else {
                match cmd {
                    Some(PatcherCommand::CancelUpdate) => (ControllerState::Idle, ControllerAction::Cancel),
                    _ => (state, ControllerAction::Ignore),
                }
            }
        },
        ControllerState::Terminated => (ControllerState::Terminated, ControllerAction::Ignore),
    }
}

/// The stages of an update.
#[derive(Debug, Clone, Copy, PartialEq, Eq, Structural)]
pub enum UpdateStage {
    MirrorSearch,
    Download,
    Apply,
}

/// The prefix that an error of each stage carries in the update's report.
pub open spec fn stage_prefix(stage: UpdateStage) -> Seq<char> {
    match stage {
        UpdateStage::MirrorSearch => ""@,
        UpdateStage::Download => "Failed to download patches: "@,
        UpdateStage::Apply => "Failed to apply patches: "@,
    }
}

/// The error with which the update ends when `stage` failed with `e`: a
/// cancellation stays one; any other error is prefixed with its stage.
pub fn stage_error(stage: UpdateStage, e: InterruptibleFnError) -> (r: InterruptibleFnError)
    ensures
        e is Interrupted ==> r is Interrupted,
        e is Error ==> r is Error && r->Error_0@ == stage_prefix(stage) + e->Error_0@,
{
    match e {
        InterruptibleFnError::Interrupted => InterruptibleFnError::Interrupted,
        InterruptibleFnError::Error(msg) => {
            let prefix = match stage {
                UpdateStage::MirrorSearch => String::new(),
                UpdateStage::Download => String::from_str("Failed to download patches: "),
                UpdateStage::Apply => String::from_str("Failed to apply patches: "),
            };
            proof {
                reveal_strlit("");
            }
            InterruptibleFnError::Error(prefix.concat(msg.as_str()))
        },
    }
}

/// The status sent after applying an archive that the user picked:
/// `file_name` names the archive, `result` carries the failure message.
pub fn manual_patch_status(file_name: String, result: Result<(), String>) -> (r: PatchingStatus)
    ensures
        result is Ok ==> r == PatchingStatus::ManualPatchApplied(file_name),
        result is Err ==> r == PatchingStatus::Error(result->Err_0),
{
    match result {
        Ok(()) => PatchingStatus::ManualPatchApplied(file_name),
        Err(msg) => PatchingStatus::Error(msg),
    }
}

/// The status sent when a busy state ends: a cancellation is no error.
pub fn run_finished_status(result: Result<(), InterruptibleFnError>) -> (r: PatchingStatus)
    ensures
        match result {
            Ok(()) => r == PatchingStatus::Ready,
            Err(InterruptibleFnError::Interrupted) => r == PatchingStatus::Ready,
            Err(InterruptibleFnError::Error(msg)) => r == PatchingStatus::Error(msg),
        },
{
    match result {
        Ok(()) => PatchingStatus::Ready,
        Err(InterruptibleFnError::Interrupted) => PatchingStatus::Ready,
        Err(InterruptibleFnError::Error(msg)) => PatchingStatus::Error(msg),
    }
}

} // verus!
