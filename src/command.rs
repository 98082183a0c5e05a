use std::sync::mpsc::{Receiver, TryRecvError};
use vstd::prelude::*;

verus! {

/// A request sent by the front end to the patcher core.
#[derive(Debug, Clone, PartialEq, Eq)]
pub enum PatcherCommand {
    StartUpdate,
    CancelUpdate,
    ResetCache,
    /// Apply the archive at this path.
    ManualPatch(String),
    Quit,
}

/// What a non-blocking look at the command channel found.
#[derive(Debug, PartialEq, Eq)]
pub enum CommandPoll {
    Received(PatcherCommand),
    Empty,
    Disconnected,
}

/// Whether a poll result asks the running task to stop.
pub open spec fn poll_interrupts(poll: CommandPoll) -> bool {
    match poll {
        CommandPoll::Received(PatcherCommand::CancelUpdate) => true,
        CommandPoll::Received(PatcherCommand::Quit) => true,
        CommandPoll::Received(_) => false,
        CommandPoll::Empty => false,
        CommandPoll::Disconnected => true,
    }
}

/// Error of a task that can be cancelled from the front end.
#[derive(Debug, PartialEq, Eq)]
pub enum InterruptibleFnError {
    Error(String),
    Interrupted,
}

/// Decides from one poll of the command channel whether to go on.
pub fn command_outcome(poll: CommandPoll) -> (r: Result<(), InterruptibleFnError>)
    ensures
        r is Err <==> poll_interrupts(poll),
        r is Err ==> r->Err_0 is Interrupted,
{
    match poll {
        CommandPoll::Received(PatcherCommand::CancelUpdate) => Err(InterruptibleFnError::Interrupted),
        CommandPoll::Received(PatcherCommand::Quit) => Err(InterruptibleFnError::Interrupted),
        CommandPoll::Received(_) => Ok(()),
        CommandPoll::Empty => Ok(()),
        CommandPoll::Disconnected => Err(InterruptibleFnError::Interrupted),
    }
}

impl InterruptibleFnError {
    /// The text shown to the user for this error.
    pub fn message(&self) -> (r: String)
        ensures
            match self {
                InterruptibleFnError::Error(msg) => r@ == msg@,
                InterruptibleFnError::Interrupted => r@ == "Operation was interrupted"@,
            },
    {
        match self {
            InterruptibleFnError::Error(msg) => msg.clone(),
            InterruptibleFnError::Interrupted => String::from_str("Operation was interrupted"),
        }
    }
}

#[verifier::external_type_specification]
#[verifier::external_body]
#[verifier::reject_recursive_types(T)]
pub struct ExReceiver<T>(Receiver<T>);

/// Relies on std::sync::mpsc::Receiver::try_recv: it takes a pending command
/// off the channel without blocking, or tells an empty channel from one whose
/// sender is gone.
#[verifier::external_body]
fn try_receive(rx: &mut Receiver<PatcherCommand>) -> (r: CommandPoll) {
    match rx.try_recv() {
        Ok(cmd) => CommandPoll::Received(cmd),
        Err(TryRecvError::Empty) => CommandPoll::Empty,
        Err(TryRecvError::Disconnected) => CommandPoll::Disconnected,
    }
}

/// Relies on std::sync::mpsc::Receiver::recv: it blocks until a command comes
/// or the sender is gone.
#[verifier::external_body]
fn receive(rx: &mut Receiver<PatcherCommand>) -> (r: Option<PatcherCommand>) {
    rx.recv().ok()
}

/// Looks once at the command channel without blocking and tells what it found.
pub fn poll_commands(rx: &mut Receiver<PatcherCommand>) -> (r: CommandPoll) {
    try_receive(rx)
}

/// Looks once at the command channel without blocking: a cancellation, a quit
/// request or a vanished front end stops the running task.
pub fn process_incoming_commands(rx: &mut Receiver<PatcherCommand>) -> (r: Result<(), InterruptibleFnError>)
    ensures
        r is Err ==> r->Err_0 is Interrupted,
{
    let poll = try_receive(rx);
    command_outcome(poll)
}

/// Whether a command received while a task runs (`None` when the front
/// end's sender is gone) ends the task: a cancellation, a quit request or a
/// vanished front end does; the other commands are ignored while busy.
pub open spec fn ends_task(cmd: Option<PatcherCommand>) -> bool {
    match cmd {
        Some(PatcherCommand::CancelUpdate) => true,
        Some(PatcherCommand::Quit) => true,
        Some(_) => false,
        None => true,
    }
}

/// Decides whether a received command ends the running task.
pub fn cancellation_requested(cmd: &Option<PatcherCommand>) -> (r: bool)
    ensures
        r == ends_task(*cmd),
{
    match cmd {
        Some(PatcherCommand::CancelUpdate) => true,
        Some(PatcherCommand::Quit) => true,
        Some(_) => false,
        None => true,
    }
}

/// Blocks until the front end sends a command or goes away, and tells
/// whether that event ends the running task. A caller that waits for a
/// cancellation calls it again while it returns `None`.
pub fn wait_for_cancellation(rx: &mut Receiver<PatcherCommand>) -> (r: Option<InterruptibleFnError>)
    ensures
        r is Some ==> r->0 is Interrupted,
{
    let cmd = receive(rx);
    if cancellation_requested(&cmd) {
        Some(InterruptibleFnError::Interrupted)
    } else {
        None
    }
}

} // verus!
