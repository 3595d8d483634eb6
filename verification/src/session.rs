//! The session around the four workers: what must hold before it starts, how
//! a worker that ends takes the others with it, and how the session ends.

use crate::error::{Error, IoFailure, IoFailureKind};
use crate::events::{CommandExitEvent, CommandOutputEvent, Notice, UserInputEvent, UserInterfaceEvent};
use vstd::prelude::*;

verus! {

/// The failure of a session that was started without a terminal.
pub open spec fn is_missing_terminal(error: Error, message: Seq<char>) -> bool {
    &&& error matches Error::IOError(failure)
    &&& failure.kind is InvalidInput
    &&& failure.code is None
    &&& failure.message@ == message
}

/// Checks that the session has a terminal on both ends. Standard input is
/// looked at first.
pub fn require_terminals(stdin_is_tty: bool, stdout_is_tty: bool) -> (checked: Result<(), Error>)
    ensures
        checked is Ok <==> stdin_is_tty && stdout_is_tty,
        !stdin_is_tty ==> checked is Err && is_missing_terminal(
            checked->Err_0,
            "stdin needs to be a tty"@,
        ),
        stdin_is_tty && !stdout_is_tty ==> checked is Err && is_missing_terminal(
            checked->Err_0,
            "stdout needs to be a tty"@,
        ),
{
    if !stdin_is_tty {
        return Err(
            Error::IOError(
                IoFailure {
                    kind: IoFailureKind::InvalidInput,
                    code: None,
                    message: "stdin needs to be a tty".to_owned(),
                },
            ),
        );
    }
    if !stdout_is_tty {
        return Err(
            Error::IOError(
                IoFailure {
                    kind: IoFailureKind::InvalidInput,
                    code: None,
                    message: "stdout needs to be a tty".to_owned(),
                },
            ),
        );
    }
    Ok(())
}

/// The four workers, in the order in which the session waits for them.
#[derive(Debug, Clone, Copy, PartialEq, Eq)]
pub enum Worker {
    CommandExit,
    CommandOutput,
    UserInput,
    UserInterface,
}

/// The stop message for the mailbox of `worker`.
pub open spec fn stop_for(worker: Worker) -> Notice {
    match worker {
        Worker::CommandExit => Notice::ToCommandExit(CommandExitEvent::Stop),
        Worker::CommandOutput => Notice::ToCommandOutput(CommandOutputEvent::Stop),
        Worker::UserInput => Notice::ToUserInput(UserInputEvent::Stop),
        Worker::UserInterface => Notice::ToUserInterface(UserInterfaceEvent::Stop),
    }
}

/// The stop messages that `worker` sends when it has ended: one to each of
/// the other three, in the order of the workers. The exit supervisor sends
/// them only when it has failed.
pub open spec fn stops_of(worker: Worker, failed: bool) -> Seq<Notice> {
    match worker {
        Worker::CommandExit => if failed {
            seq![
                stop_for(Worker::CommandOutput),
                stop_for(Worker::UserInput),
                stop_for(Worker::UserInterface),
            ]
        } else {
            Seq::empty()
        },
        Worker::CommandOutput => seq![
            stop_for(Worker::CommandExit),
            stop_for(Worker::UserInput),
            stop_for(Worker::UserInterface),
        ],
        Worker::UserInput => seq![
            stop_for(Worker::CommandExit),
            stop_for(Worker::CommandOutput),
            stop_for(Worker::UserInterface),
        ],
        Worker::UserInterface => seq![
            stop_for(Worker::CommandExit),
            stop_for(Worker::CommandOutput),
            stop_for(Worker::UserInput),
        ],
    }
}

/// The stop messages that `worker` is to send now that it has ended with
/// `outcome`.
pub fn stop_notices(worker: Worker, outcome: &Result<(), Error>) -> (notices: Vec<Notice>)
    ensures
        notices@ == stops_of(worker, outcome is Err),
{
    let to_exit = Notice::ToCommandExit(CommandExitEvent::Stop);
    let to_output = Notice::ToCommandOutput(CommandOutputEvent::Stop);
    let to_input = Notice::ToUserInput(UserInputEvent::Stop);
    let to_interface = Notice::ToUserInterface(UserInterfaceEvent::Stop);
    match worker {
        Worker::CommandExit => {
            if outcome.is_err() {
                vec![to_output, to_input, to_interface]
            } else {
                Vec::new()
            }
        },
        Worker::CommandOutput => vec![to_exit, to_input, to_interface],
        Worker::UserInput => vec![to_exit, to_output, to_interface],
        Worker::UserInterface => vec![to_exit, to_output, to_input],
    }
}

/// How the session ends, given how each worker ended: with the first
/// failure in the order of the workers, and well if there is none.
pub open spec fn first_failure(
    command_exit: Result<(), Error>,
    command_output: Result<(), Error>,
    user_input: Result<(), Error>,
    user_interface: Result<(), Error>,
) -> Result<(), Error> {
    if command_exit is Err {
        command_exit
    } else if command_output is Err {
        command_output
    } else if user_input is Err {
        user_input
    } else {
        user_interface
    }
}

/// Decides how the session ends once all four workers have ended.
pub fn session_outcome(
    command_exit: Result<(), Error>,
    command_output: Result<(), Error>,
    user_input: Result<(), Error>,
    user_interface: Result<(), Error>,
) -> (outcome: Result<(), Error>)
    ensures
        outcome == first_failure(command_exit, command_output, user_input, user_interface),
{
    if command_exit.is_err() {
        command_exit
    } else if command_output.is_err() {
        command_output
    } else if user_input.is_err() {
        user_input
    } else {
        user_interface
    }
}

} // verus!
