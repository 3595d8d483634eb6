//! The exit supervisor: the one worker that waits for commands to end.
//!
//! It is told of every command that starts, has the operating system waited
//! on for that process, checks what the wait reports, and tells the other
//! three workers how the command ended. The supervisor itself neither waits
//! nor sends: it says what it waits for, is handed what happened, and answers
//! with the messages to send.

use crate::error::{Error, OsFailure};
use crate::events::{CommandExitEvent, CommandOutputEvent, Notice, UserInputEvent, UserInterfaceEvent};
use vstd::prelude::*;
use vstd::string::StringExecFns;

verus! {

/// What the operating system reported of a child process that was waited for.
#[derive(Debug, Clone, Copy, PartialEq, Eq)]
pub enum WaitReport {
    /// The process with this id exited by itself with this exit code.
    Exited(i32, i32),
    /// The process with this id was ended by the signal with this number.
    Signaled(i32, i32),
    /// The process with this id was stopped, and lives on.
    Stopped(i32),
    /// The process with this id was resumed, and lives on.
    Continued(i32),
    /// No process changed its state.
    StillAlive,
}

/// Whether `text` is the number as it is displayed.
pub open spec fn shows(number: i32, text: String) -> bool {
    vstd::string::to_string_from_display_ensures::<i32>(&number, text)
}

/// Whether `text` is `name` and, in brackets behind it, the number as it is
/// displayed.
pub open spec fn names_one(text: Seq<char>, name: Seq<char>, number: i32) -> bool {
    exists|shown: String| #[trigger] shows(number, shown) && text == name + "("@ + shown@ + ")"@
}

/// Whether `text` is `name` and, in brackets behind it, the two numbers as
/// they are displayed, with a comma and a space between them.
pub open spec fn names_two(text: Seq<char>, name: Seq<char>, first: i32, second: i32) -> bool {
    exists|left: String, right: String|
        #![trigger shows(first, left), shows(second, right)]
        shows(first, left) && shows(second, right) && text == name + "("@ + left@ + ", "@
            + right@ + ")"@
}

impl WaitReport {
    /// Whether `text` describes this report: the name of its kind and the
    /// numbers it holds.
    pub open spec fn described_by(&self, text: Seq<char>) -> bool {
        match self {
            WaitReport::Exited(pid, code) => names_two(text, "Exited"@, *pid, *code),
            WaitReport::Signaled(pid, signal) => names_two(text, "Signaled"@, *pid, *signal),
            WaitReport::Stopped(pid) => names_one(text, "Stopped"@, *pid),
            WaitReport::Continued(pid) => names_one(text, "Continued"@, *pid),
            WaitReport::StillAlive => text == "StillAlive"@,
        }
    }

    /// The text that describes this report.
    pub fn describe(&self) -> (text: String)
        ensures
            self.described_by(text@),
    {
        match self {
            WaitReport::Exited(pid, code) => name_two("Exited", *pid, *code),
            WaitReport::Signaled(pid, signal) => name_two("Signaled", *pid, *signal),
            WaitReport::Stopped(pid) => name_one("Stopped", *pid),
            WaitReport::Continued(pid) => name_one("Continued", *pid),
            WaitReport::StillAlive => "StillAlive".to_owned(),
        }
    }
}

/// Writes `name` and the number in brackets behind it.
fn name_one(name: &str, number: i32) -> (text: String)
    ensures
        names_one(text@, name@, number),
{
    let shown = number.to_string();
    let mut text = name.to_owned();
    text.append("(");
    text.append(shown.as_str());
    text.append(")");
    assert(shows(number, shown));
    text
}

/// Writes `name` and the two numbers in brackets behind it.
fn name_two(name: &str, first: i32, second: i32) -> (text: String)
    ensures
        names_two(text@, name@, first, second),
{
    let left = first.to_string();
    let right = second.to_string();
    let mut text = name.to_owned();
    text.append("(");
    text.append(left.as_str());
    text.append(", ");
    text.append(right.as_str());
    text.append(")");
    assert(shows(first, left) && shows(second, right));
    text
}

/// How the command `pid` ended, going by what the wait for it reported: its
/// exit code where it exited by itself, no code where a signal ended it. A
/// report of another process's end, and a report that is no end at all, are
/// failures of the wait.
pub open spec fn exit_outcome(pid: i32, report: WaitReport) -> Result<Option<i32>, Error> {
    match report {
        WaitReport::Exited(reported, code) => if reported == pid {
            Ok(Some(code))
        } else {
            Err(Error::NixError(OsFailure::WrongPidExited { awaited: pid, reported }))
        },
        WaitReport::Signaled(reported, _) => if reported == pid {
            Ok(None)
        } else {
            Err(Error::NixError(OsFailure::WrongPidExited { awaited: pid, reported }))
        },
        _ => Err(Error::NixError(OsFailure::WrongChildEvent(report))),
    }
}

/// Checks what the wait for the command `pid` reported.
pub fn check_wait_report(pid: i32, report: WaitReport) -> (outcome: Result<Option<i32>, Error>)
    ensures
        outcome == exit_outcome(pid, report),
{
    match report {
        WaitReport::Exited(reported, code) => {
            if reported == pid {
                Ok(Some(code))
            } else {
                Err(Error::NixError(OsFailure::WrongPidExited { awaited: pid, reported }))
            }
        },
        WaitReport::Signaled(reported, _) => {
            if reported == pid {
                Ok(None)
            } else {
                Err(Error::NixError(OsFailure::WrongPidExited { awaited: pid, reported }))
            }
        },
        _ => Err(Error::NixError(OsFailure::WrongChildEvent(report))),
    }
}

/// The news of a command's end, in the order in which it is sent: to the
/// output relay, to the dispatcher, to the renderer.
pub open spec fn exit_notices(pid: i32, code: Option<i32>) -> Seq<Notice> {
    seq![
        Notice::ToCommandOutput(CommandOutputEvent::CommandExited),
        Notice::ToUserInput(UserInputEvent::CommandExited(pid, code)),
        Notice::ToUserInterface(UserInterfaceEvent::CommandExited(pid, code)),
    ]
}

/// Where the supervisor stands.
#[derive(Debug, Clone, Copy, PartialEq, Eq)]
pub enum SupervisorPhase {
    /// Between commands.
    Idle,
    /// The end of the process with this id is being waited for.
    Waiting(i32),
    /// The supervisor has ended.
    Stopped,
}

/// What can happen to the supervisor.
#[derive(Debug, Clone, Copy, PartialEq, Eq)]
pub enum SupervisorEvent {
    /// This message arrived in the supervisor's mailbox.
    Message(CommandExitEvent),
    /// The supervisor's mailbox was closed.
    MailboxClosed,
    /// The wait that was asked for returned this report, or failed with this
    /// error number.
    Waited(Result<WaitReport, nix::errno::Errno>),
}

/// What the supervisor waits for.
#[derive(Debug, Clone, Copy, PartialEq, Eq)]
pub enum SupervisorRequest {
    /// The next message in the supervisor's mailbox.
    Message,
    /// The end of the process with this id, however long it takes.
    Wait(i32),
    /// Nothing: the supervisor has ended.
    Nothing,
}

/// The failure that `event` is to the supervisor, if it is one.
pub open spec fn failure_of(phase: SupervisorPhase, event: SupervisorEvent) -> Option<Error> {
    match (phase, event) {
        (SupervisorPhase::Waiting(pid), SupervisorEvent::Waited(Ok(report))) => match exit_outcome(
            pid,
            report,
        ) {
            Ok(_) => None,
            Err(error) => Some(error),
        },
        (SupervisorPhase::Waiting(_), SupervisorEvent::Waited(Err(errno))) => Some(
            Error::NixError(OsFailure::Errno(errno)),
        ),
        _ => None,
    }
}

/// The phase after `event`. A stop message and a closed mailbox end the
/// supervisor, and so does a failure. An event that the supervisor does not
/// wait for changes nothing.
pub open spec fn next_phase(phase: SupervisorPhase, event: SupervisorEvent) -> SupervisorPhase {
    match (phase, event) {
        (SupervisorPhase::Idle, SupervisorEvent::Message(CommandExitEvent::CommandStarted(pid))) => {
            SupervisorPhase::Waiting(pid)
        },
        (SupervisorPhase::Idle, SupervisorEvent::Message(CommandExitEvent::Stop)) => {
            SupervisorPhase::Stopped
        },
        (SupervisorPhase::Idle, SupervisorEvent::MailboxClosed) => SupervisorPhase::Stopped,
        (SupervisorPhase::Waiting(_), SupervisorEvent::Waited(_)) => if failure_of(phase, event)
            is None {
            SupervisorPhase::Idle
        } else {
            SupervisorPhase::Stopped
        },
        _ => phase,
    }
}

/// The messages to send on `event`, in this order.
pub open spec fn notices_on(phase: SupervisorPhase, event: SupervisorEvent) -> Seq<Notice> {
    match (phase, event) {
        (SupervisorPhase::Waiting(pid), SupervisorEvent::Waited(Ok(report))) => match exit_outcome(
            pid,
            report,
        ) {
            Ok(code) => exit_notices(pid, code),
            Err(_) => Seq::empty(),
        },
        _ => Seq::empty(),
    }
}

/// The exit supervisor.
#[derive(Debug)]
pub struct ExitSupervisor {
    phase: SupervisorPhase,
}

impl View for ExitSupervisor {
    type V = SupervisorPhase;

    closed spec fn view(&self) -> SupervisorPhase {
        self.phase
    }
}

impl ExitSupervisor {
    /// A supervisor between commands.
    pub fn new() -> (supervisor: ExitSupervisor)
        ensures
            supervisor@ == SupervisorPhase::Idle,
    {
        ExitSupervisor { phase: SupervisorPhase::Idle }
    }

    /// Where the supervisor stands.
    pub fn phase(&self) -> (phase: SupervisorPhase)
        ensures
            phase == self@,
    {
        self.phase
    }

    /// What the supervisor waits for.
    pub fn awaits(&self) -> (request: SupervisorRequest)
        ensures
            request == match self@ {
                SupervisorPhase::Idle => SupervisorRequest::Message,
                SupervisorPhase::Waiting(pid) => SupervisorRequest::Wait(pid),
                SupervisorPhase::Stopped => SupervisorRequest::Nothing,
            },
    {
        match self.phase {
            SupervisorPhase::Idle => SupervisorRequest::Message,
            SupervisorPhase::Waiting(pid) => SupervisorRequest::Wait(pid),
            SupervisorPhase::Stopped => SupervisorRequest::Nothing,
        }
    }
}

/// One step of the exit supervisor: takes what happened and returns the
/// messages to send, in order, or the failure that ends the supervisor.
pub fn command_exit(supervisor: &mut ExitSupervisor, event: SupervisorEvent) -> (result: Result<
    Vec<Notice>,
    Error,
>)
    ensures
        final(supervisor)@ == next_phase(old(supervisor)@, event),
        match result {
            Ok(notices) => failure_of(old(supervisor)@, event) is None && notices@ == notices_on(
                old(supervisor)@,
                event,
            ),
            Err(error) => failure_of(old(supervisor)@, event) == Some(error),
        },
{
    match (supervisor.phase, event) {
        (SupervisorPhase::Idle, SupervisorEvent::Message(CommandExitEvent::CommandStarted(pid))) => {
            supervisor.phase = SupervisorPhase::Waiting(pid);
            Ok(Vec::new())
        },
        (SupervisorPhase::Idle, SupervisorEvent::Message(CommandExitEvent::Stop)) => {
            supervisor.phase = SupervisorPhase::Stopped;
            Ok(Vec::new())
        },
        (SupervisorPhase::Idle, SupervisorEvent::MailboxClosed) => {
            supervisor.phase = SupervisorPhase::Stopped;
            Ok(Vec::new())
        },
        (SupervisorPhase::Waiting(pid), SupervisorEvent::Waited(Ok(report))) => {
            match check_wait_report(pid, report) {
                Ok(code) => {
                    supervisor.phase = SupervisorPhase::Idle;
                    Ok(
                        vec![
                            Notice::ToCommandOutput(CommandOutputEvent::CommandExited),
                            Notice::ToUserInput(UserInputEvent::CommandExited(pid, code)),
                            Notice::ToUserInterface(UserInterfaceEvent::CommandExited(pid, code)),
                        ],
                    )
                },
                Err(error) => {
                    supervisor.phase = SupervisorPhase::Stopped;
                    Err(error)
                },
            }
        },
        (SupervisorPhase::Waiting(_), SupervisorEvent::Waited(Err(errno))) => {
            supervisor.phase = SupervisorPhase::Stopped;
            Err(Error::from(errno))
        },
        _ => Ok(Vec::new()),
    }
}

/// The process whose end `report` tells of, if it tells of an end.
pub open spec fn ended_process(report: WaitReport) -> Option<i32> {
    match report {
        WaitReport::Exited(reported, _) => Some(reported),
        WaitReport::Signaled(reported, _) => Some(reported),
        _ => None,
    }
}

/// A wait that reports the end of another process than the awaited one is
/// never taken for the end of the awaited one: the supervisor fails with an
/// operating system failure, sends nothing and ends.
pub proof fn lemma_wrong_pid_fails(pid: i32, report: WaitReport)
    requires
        ended_process(report) is Some,
        ended_process(report) != Some(pid),
    ensures
        exit_outcome(pid, report) == Err::<Option<i32>, Error>(
            Error::NixError(
                OsFailure::WrongPidExited { awaited: pid, reported: ended_process(report).unwrap() },
            ),
        ),
        failure_of(SupervisorPhase::Waiting(pid), SupervisorEvent::Waited(Ok(report)))
            is Some,
        notices_on(SupervisorPhase::Waiting(pid), SupervisorEvent::Waited(Ok(report))).len() == 0,
        next_phase(SupervisorPhase::Waiting(pid), SupervisorEvent::Waited(Ok(report)))
            == SupervisorPhase::Stopped,
{
}

} // verus!
