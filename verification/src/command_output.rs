//! The output relay: the worker that hands what a command prints to the
//! renderer.
//!
//! While a command runs the relay drains the pseudoterminal: it looks into
//! its mailbox without waiting, reads a piece of output, and forwards it as
//! text. The end of the command, a stop message, and the end of the output
//! end the draining. The relay itself reads nothing: it says what it waits
//! for, is handed what happened, and answers with the message to send.

use crate::decoding::{decode_lossy, lossy_text};
use crate::error::Error;
use crate::events::{CommandOutputEvent, UserInterfaceEvent};
use vstd::prelude::*;
use vstd::utf8::{encode_utf8, valid_utf8};

verus! {

/// The most bytes that are read from the pseudoterminal at once.
pub const READ_BUFFER_SIZE: usize = 1000;

/// Where the relay stands.
#[derive(Debug, Clone, Copy, PartialEq, Eq)]
pub enum RelayPhase {
    /// No command is known to run.
    Idle,
    /// A command runs; the mailbox is looked into before the next read.
    Polling,
    /// A command runs; the next piece of its output is read.
    Reading,
    /// The relay has ended.
    Stopped,
}

/// What can happen to the relay.
#[derive(Debug, Clone, PartialEq, Eq)]
pub enum RelayEvent {
    /// This message was in the relay's mailbox.
    Message(CommandOutputEvent),
    /// The mailbox was looked into and was empty.
    NoMessage,
    /// The relay's mailbox was closed.
    MailboxClosed,
    /// These bytes were read; none at the end of the output.
    Read(Vec<u8>),
}

/// What the relay waits for.
#[derive(Debug, Clone, Copy, PartialEq, Eq)]
pub enum RelayRequest {
    /// The next message in the relay's mailbox, however long it takes.
    Message,
    /// A look into the mailbox: the message that is there, or word that
    /// there is none.
    Poll,
    /// The next piece of the command's output, of at most so many bytes.
    Read(usize),
    /// Nothing: the relay has ended.
    Nothing,
}

/// The failure that `event` is to the relay, if it is one: a closed mailbox.
pub open spec fn failure_of(phase: RelayPhase, event: RelayEvent) -> Option<Error> {
    match (phase, event) {
        (RelayPhase::Idle, RelayEvent::MailboxClosed) => Some(Error::ChannelRecvError),
        (RelayPhase::Polling, RelayEvent::MailboxClosed) => Some(Error::ChannelRecvError),
        _ => None,
    }
}

/// The phase after `event`. While a command's output is drained, only the
/// news of its end and a stop message end the draining before the output
/// ends. An event that the relay does not wait for changes nothing.
pub open spec fn next_phase(phase: RelayPhase, event: RelayEvent) -> RelayPhase {
    match (phase, event) {
        (RelayPhase::Idle, RelayEvent::Message(CommandOutputEvent::CommandStarted)) => {
            RelayPhase::Polling
        },
        (RelayPhase::Idle, RelayEvent::Message(CommandOutputEvent::CommandExited)) => {
            RelayPhase::Idle
        },
        (RelayPhase::Idle, RelayEvent::Message(CommandOutputEvent::Stop)) => RelayPhase::Stopped,
        (RelayPhase::Idle, RelayEvent::MailboxClosed) => RelayPhase::Stopped,
        (RelayPhase::Polling, RelayEvent::NoMessage) => RelayPhase::Reading,
        (RelayPhase::Polling, RelayEvent::Message(CommandOutputEvent::CommandStarted)) => {
            RelayPhase::Reading
        },
        (RelayPhase::Polling, RelayEvent::Message(CommandOutputEvent::CommandExited)) => {
            RelayPhase::Idle
        },
        (RelayPhase::Polling, RelayEvent::Message(CommandOutputEvent::Stop)) => {
            RelayPhase::Stopped
        },
        (RelayPhase::Polling, RelayEvent::MailboxClosed) => RelayPhase::Stopped,
        (RelayPhase::Reading, RelayEvent::Read(bytes)) => if bytes@.len() == 0 {
            RelayPhase::Idle
        } else {
            RelayPhase::Polling
        },
        _ => phase,
    }
}

/// The text to forward to the renderer on `event`, if any: what was read,
/// as text, unless that is empty.
pub open spec fn forwarded_on(phase: RelayPhase, event: RelayEvent) -> Option<Seq<char>> {
    match (phase, event) {
        (RelayPhase::Reading, RelayEvent::Read(bytes)) => if lossy_text(bytes@).len() == 0 {
            None
        } else {
            Some(lossy_text(bytes@))
        },
        _ => None,
    }
}

/// Whether the step forwards text with U+FFFD in it.
pub open spec fn forwards_replacement(result: Result<Option<UserInterfaceEvent>, Error>) -> bool {
    &&& result matches Ok(Some(UserInterfaceEvent::CommandOutput(text)))
    &&& text@.contains('\u{fffd}')
}

/// Whether the step succeeds and forwards nothing.
pub open spec fn forwards_nothing(result: Result<Option<UserInterfaceEvent>, Error>) -> bool {
    result matches Ok(None)
}

/// The output relay.
#[derive(Debug)]
pub struct OutputRelay {
    phase: RelayPhase,
}

impl View for OutputRelay {
    type V = RelayPhase;

    closed spec fn view(&self) -> RelayPhase {
        self.phase
    }
}

impl OutputRelay {
    /// A relay that knows of no command.
    pub fn new() -> (relay: OutputRelay)
        ensures
            relay@ == RelayPhase::Idle,
    {
        OutputRelay { phase: RelayPhase::Idle }
    }

    /// Where the relay stands.
    pub fn phase(&self) -> (phase: RelayPhase)
        ensures
            phase == self@,
    {
        self.phase
    }

    /// What the relay waits for.
    pub fn awaits(&self) -> (request: RelayRequest)
        ensures
            request == match self@ {
                RelayPhase::Idle => RelayRequest::Message,
                RelayPhase::Polling => RelayRequest::Poll,
                RelayPhase::Reading => RelayRequest::Read(READ_BUFFER_SIZE),
                RelayPhase::Stopped => RelayRequest::Nothing,
            },
    {
        match self.phase {
            RelayPhase::Idle => RelayRequest::Message,
            RelayPhase::Polling => RelayRequest::Poll,
            RelayPhase::Reading => RelayRequest::Read(READ_BUFFER_SIZE),
            RelayPhase::Stopped => RelayRequest::Nothing,
        }
    }
}

/// One step of the output relay: takes what happened and returns the message
/// for the renderer, if there is one, or the failure that ends the relay.
pub fn command_output(relay: &mut OutputRelay, event: RelayEvent) -> (result: Result<
    Option<UserInterfaceEvent>,
    Error,
>)
    ensures
        final(relay)@ == next_phase(old(relay)@, event),
        match result {
            Ok(Some(message)) => {
                &&& failure_of(old(relay)@, event) is None
                &&& message matches UserInterfaceEvent::CommandOutput(text)
                &&& forwarded_on(old(relay)@, event) == Some(text@)
            },
            Ok(None) => failure_of(old(relay)@, event) is None && forwarded_on(old(relay)@, event)
                is None,
            Err(error) => failure_of(old(relay)@, event) == Some(error),
        },
        old(relay)@ is Reading ==> (event matches RelayEvent::Read(bytes) ==> (!valid_utf8(bytes@)
            ==> forwards_replacement(result))),
        old(relay)@ is Reading ==> (event matches RelayEvent::Read(bytes) ==> (forwards_nothing(
            result,
        ) <==> bytes@.len() == 0)),
{
    match (relay.phase, event) {
        (RelayPhase::Idle, RelayEvent::Message(CommandOutputEvent::CommandStarted)) => {
            relay.phase = RelayPhase::Polling;
            Ok(None)
        },
        (RelayPhase::Idle, RelayEvent::Message(CommandOutputEvent::CommandExited)) => Ok(None),
        (RelayPhase::Idle, RelayEvent::Message(CommandOutputEvent::Stop)) => {
            relay.phase = RelayPhase::Stopped;
            Ok(None)
        },
        (RelayPhase::Idle, RelayEvent::MailboxClosed) => {
            relay.phase = RelayPhase::Stopped;
            Err(Error::ChannelRecvError)
        },
        (RelayPhase::Polling, RelayEvent::NoMessage) => {
            relay.phase = RelayPhase::Reading;
            Ok(None)
        },
        (RelayPhase::Polling, RelayEvent::Message(message)) => {
            relay.phase =
            match message {
                CommandOutputEvent::CommandStarted => RelayPhase::Reading,
                CommandOutputEvent::CommandExited => RelayPhase::Idle,
                CommandOutputEvent::Stop => RelayPhase::Stopped,
            };
            Ok(None)
        },
        (RelayPhase::Polling, RelayEvent::MailboxClosed) => {
            relay.phase = RelayPhase::Stopped;
            Err(Error::ChannelRecvError)
        },
        (RelayPhase::Reading, RelayEvent::Read(bytes)) => {
            if bytes.len() == 0 {
                relay.phase = RelayPhase::Idle;
            } else {
                relay.phase = RelayPhase::Polling;
            }
            Ok(read_command_output(bytes.as_slice()))
        },
        _ => Ok(None),
    }
}

/// Text is empty if and only if its UTF-8 encoding is.
proof fn lemma_encoding_of_nothing(text: Seq<char>)
    ensures
        encode_utf8(text).len() == 0 <==> text.len() == 0,
{
    if text.len() > 0 {
        assert(vstd::utf8::encode_scalar(text[0] as u32).len() > 0);
    }
}

/// Turns a piece of a command's output into the message for the renderer.
/// Bytes that are no UTF-8 neither fail nor get lost: each such sequence
/// comes out as U+FFFD. Output that is valid UTF-8 is forwarded as the text
/// it encodes. Nothing is forwarded only where nothing was read.
pub fn read_command_output(bytes: &[u8]) -> (message: Option<UserInterfaceEvent>)
    ensures
        message is None <==> bytes@.len() == 0,
        match message {
            Some(event) => {
                &&& event matches UserInterfaceEvent::CommandOutput(text)
                &&& text@ == lossy_text(bytes@)
                &&& text@.len() > 0
                &&& valid_utf8(bytes@) ==> encode_utf8(text@) == bytes@
                &&& !valid_utf8(bytes@) ==> text@.contains('\u{fffd}')
            },
            None => lossy_text(bytes@).len() == 0,
        },
{
    let text = decode_lossy(bytes);
    proof {
        lemma_encoding_of_nothing(text@);
    }
    forward_output(text)
}

/// The message that forwards `text` to the renderer; none for empty text.
pub fn forward_output(text: String) -> (message: Option<UserInterfaceEvent>)
    ensures
        message == if text@.len() == 0 {
            None
        } else {
            Some(UserInterfaceEvent::CommandOutput(text))
        },
{
    if text.as_str().is_empty() {
        None
    } else {
        Some(UserInterfaceEvent::CommandOutput(text))
    }
}

} // verus!
