//! The messages that the four workers send each other, one family for each
//! mailbox, and a message together with the mailbox it is meant for.

use vstd::prelude::*;

verus! {

/// What the exit supervisor receives.
#[derive(Debug, Clone, Copy, PartialEq, Eq)]
pub enum CommandExitEvent {
    /// A command was started as the process with this id.
    CommandStarted(i32),
    Stop,
}

/// What the output relay receives.
#[derive(Debug, Clone, Copy, PartialEq, Eq)]
pub enum CommandOutputEvent {
    CommandStarted,
    CommandExited,
    Stop,
}

/// What the dispatcher receives: the answer it waits for after it has killed
/// a command. The exit code is absent where the process did not exit by
/// itself.
#[derive(Debug, Clone, Copy, PartialEq, Eq)]
pub enum UserInputEvent {
    /// The process with this id has ended, with this exit code.
    CommandExited(i32, Option<i32>),
    Stop,
}

/// What the renderer receives: all that the user gets to see.
#[derive(Debug, Clone, PartialEq, Eq)]
pub enum UserInterfaceEvent {
    KeyPress(char),
    CommandOutput(String),
    /// The process with this id has ended, with this exit code.
    CommandExited(i32, Option<i32>),
    Stop,
}

/// A message and the mailbox it goes to.
#[derive(Debug, Clone, PartialEq, Eq)]
pub enum Notice {
    ToCommandExit(CommandExitEvent),
    ToCommandOutput(CommandOutputEvent),
    ToUserInput(UserInputEvent),
    ToUserInterface(UserInterfaceEvent),
}

} // verus!
