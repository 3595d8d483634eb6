//! The one error type of the shell and how each failure is described.

use crate::command_exit::WaitReport;
use std::sync::mpsc::{RecvError, SendError};
use vstd::prelude::*;
use vstd::std_specs::convert::FromSpecImpl;
use vstd::string::StringExecFns;

verus! {

/// The error number of a failed operating system call, as `nix` reports it.
/// The shell hands it on and never looks inside.
#[verifier::external_type_specification]
#[verifier::external_body]
pub struct ExErrno(nix::errno::Errno);

/// What `Receiver::recv` returns once every sender is gone.
#[verifier::external_type_specification]
#[verifier::external_body]
pub struct ExRecvError(RecvError);

/// What `Sender::send` returns once the receiver is gone: the message that
/// could not be delivered.
#[verifier::external_type_specification]
#[verifier::external_body]
#[verifier::reject_recursive_types(T)]
pub struct ExSendError<T>(SendError<T>);

/// What the shell tells apart among I/O failures.
#[derive(Debug, Clone, Copy, PartialEq, Eq)]
pub enum IoFailureKind {
    /// The file or program does not exist.
    NotFound,
    /// A value handed to the operation was not acceptable.
    InvalidInput,
    /// Any other failure.
    Other,
}

/// A failed I/O operation: its kind, the operating system's error number
/// where there is one, and the text that describes it.
#[derive(Debug, Clone, PartialEq, Eq)]
pub struct IoFailure {
    pub kind: IoFailureKind,
    pub code: Option<i32>,
    pub message: String,
}

/// What a worker that ended abnormally left behind, as far as it can be
/// read: its message, or no text where it left none.
#[derive(Debug, Clone, PartialEq, Eq)]
pub struct PanicPayload {
    pub message: String,
}

/// A failed call of an operating system primitive.
#[derive(Debug, Clone, Copy, PartialEq, Eq)]
pub enum OsFailure {
    /// The call failed with this error number.
    Errno(nix::errno::Errno),
    /// The wait for one process was answered with the end of another.
    WrongPidExited { awaited: i32, reported: i32 },
    /// The wait was answered with a state that ends no process.
    WrongChildEvent(WaitReport),
}

/// Every way in which the shell fails.
#[derive(Debug, Clone, PartialEq, Eq)]
pub enum Error {
    /// A mailbox was closed before a message could be received from it.
    ChannelRecvError,
    /// A mailbox was closed before a message could be sent into it.
    ChannelSendError,
    /// An I/O operation failed.
    IOError(IoFailure),
    /// An operating system primitive failed.
    NixError(OsFailure),
    /// A worker ended abnormally and left this behind.
    ThreadPanicError(PanicPayload),
}

impl Error {
    /// Whether `text` describes this error. The two channel failures and a
    /// crashed worker are described by their names, an I/O failure by its
    /// message, an error number by what `nix` displays for it, and a wait
    /// that went wrong by what went wrong, with the report where no process
    /// ended.
    pub open spec fn described_by(&self, text: String) -> bool {
        match self {
            Error::ChannelRecvError => text@ == "ChannelRecvError"@,
            Error::ChannelSendError => text@ == "ChannelSendError"@,
            Error::IOError(failure) => text@ == failure.message@,
            Error::NixError(OsFailure::Errno(errno)) => {
                vstd::string::to_string_from_display_ensures::<nix::errno::Errno>(errno, text)
            },
            Error::NixError(OsFailure::WrongPidExited { .. }) => text@ == "Wrong pid exited"@,
            Error::NixError(OsFailure::WrongChildEvent(report)) => exists|status: Seq<char>|
                #[trigger] report.described_by(status) && text@ == "Wrong child process event: "@
                    + status,
            Error::ThreadPanicError(_) => text@ == "ThreadPanicError"@,
        }
    }

    /// The text that describes this error to the user.
    pub fn describe(&self) -> (text: String)
        ensures
            self.described_by(text),
    {
        match self {
            Error::ChannelRecvError => "ChannelRecvError".to_owned(),
            Error::ChannelSendError => "ChannelSendError".to_owned(),
            Error::IOError(failure) => failure.message.clone(),
            Error::NixError(OsFailure::Errno(errno)) => errno.to_string(),
            Error::NixError(OsFailure::WrongPidExited { .. }) => "Wrong pid exited".to_owned(),
            Error::NixError(OsFailure::WrongChildEvent(report)) => {
                let status = report.describe();
                let mut text = "Wrong child process event: ".to_owned();
                text.append(status.as_str());
                assert(report.described_by(status@));
                text
            },
            Error::ThreadPanicError(_) => "ThreadPanicError".to_owned(),
        }
    }
}

impl From<RecvError> for Error {
    fn from(_err: RecvError) -> (error: Error) {
        Error::ChannelRecvError
    }
}

impl FromSpecImpl<RecvError> for Error {
    open spec fn obeys_from_spec() -> bool {
        true
    }

    open spec fn from_spec(_err: RecvError) -> Error {
        Error::ChannelRecvError
    }
}

impl<T> From<SendError<T>> for Error {
    fn from(_err: SendError<T>) -> (error: Error) {
        Error::ChannelSendError
    }
}

impl<T> FromSpecImpl<SendError<T>> for Error {
    open spec fn obeys_from_spec() -> bool {
        true
    }

    open spec fn from_spec(_err: SendError<T>) -> Error {
        Error::ChannelSendError
    }
}

impl From<nix::errno::Errno> for Error {
    fn from(errno: nix::errno::Errno) -> (error: Error) {
        Error::NixError(OsFailure::Errno(errno))
    }
}

impl FromSpecImpl<nix::errno::Errno> for Error {
    open spec fn obeys_from_spec() -> bool {
        true
    }

    open spec fn from_spec(errno: nix::errno::Errno) -> Error {
        Error::NixError(OsFailure::Errno(errno))
    }
}

impl From<PanicPayload> for Error {
    fn from(payload: PanicPayload) -> (error: Error) {
        Error::ThreadPanicError(payload)
    }
}

impl FromSpecImpl<PanicPayload> for Error {
    open spec fn obeys_from_spec() -> bool {
        true
    }

    open spec fn from_spec(payload: PanicPayload) -> Error {
        Error::ThreadPanicError(payload)
    }
}

impl From<IoFailure> for Error {
    fn from(failure: IoFailure) -> (error: Error) {
        Error::IOError(failure)
    }
}

impl FromSpecImpl<IoFailure> for Error {
    open spec fn obeys_from_spec() -> bool {
        true
    }

    open spec fn from_spec(failure: IoFailure) -> Error {
        Error::IOError(failure)
    }
}

} // verus!
