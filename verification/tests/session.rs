use liveshell::error::{Error, IoFailure, IoFailureKind, OsFailure, PanicPayload};
use liveshell::events::{
    CommandExitEvent, CommandOutputEvent, Notice, UserInputEvent, UserInterfaceEvent,
};
use liveshell::session::{require_terminals, session_outcome, stop_notices, Worker};

fn missing(message: &str) -> Error {
    Error::IOError(IoFailure {
        kind: IoFailureKind::InvalidInput,
        code: None,
        message: message.to_string(),
    })
}

#[test]
fn session_needs_a_terminal_on_both_ends() {
    assert_eq!(require_terminals(true, true), Ok(()));
}

#[test]
fn stdin_that_is_no_terminal_is_refused() {
    assert_eq!(require_terminals(false, true), Err(missing("stdin needs to be a tty")));
    assert_eq!(require_terminals(false, false), Err(missing("stdin needs to be a tty")));
    assert_eq!(require_terminals(false, true).unwrap_err().describe(), "stdin needs to be a tty");
}

#[test]
fn stdout_that_is_no_terminal_is_refused() {
    assert_eq!(require_terminals(true, false), Err(missing("stdout needs to be a tty")));
    assert_eq!(require_terminals(true, false).unwrap_err().describe(), "stdout needs to be a tty");
}

#[test]
fn session_ends_well_when_all_workers_do() {
    assert_eq!(session_outcome(Ok(()), Ok(()), Ok(()), Ok(())), Ok(()));
}

#[test]
fn session_ends_with_the_first_failure_in_the_order_of_the_workers() {
    let recv = Error::ChannelRecvError;
    let send = Error::ChannelSendError;
    let crash = Error::ThreadPanicError(PanicPayload { message: "boom".to_string() });
    let os = Error::NixError(OsFailure::Errno(nix::errno::Errno::EIO));
    assert_eq!(
        session_outcome(Err(recv.clone()), Err(send.clone()), Err(crash.clone()), Err(os.clone())),
        Err(recv.clone())
    );
    assert_eq!(
        session_outcome(Ok(()), Err(send.clone()), Err(crash.clone()), Err(os.clone())),
        Err(send.clone())
    );
    assert_eq!(session_outcome(Ok(()), Ok(()), Err(crash.clone()), Err(os.clone())), Err(crash.clone()));
    assert_eq!(session_outcome(Ok(()), Ok(()), Ok(()), Err(os.clone())), Err(os));
    assert_eq!(session_outcome(Err(recv.clone()), Ok(()), Err(crash), Ok(())), Err(recv));
}

#[test]
fn exit_supervisor_stops_the_others_only_when_it_failed() {
    assert_eq!(stop_notices(Worker::CommandExit, &Ok(())), vec![]);
    assert_eq!(
        stop_notices(Worker::CommandExit, &Err(Error::ChannelSendError)),
        vec![
            Notice::ToCommandOutput(CommandOutputEvent::Stop),
            Notice::ToUserInput(UserInputEvent::Stop),
            Notice::ToUserInterface(UserInterfaceEvent::Stop),
        ]
    );
}

#[test]
fn other_workers_stop_the_others_however_they_ended() {
    for outcome in [Ok(()), Err(Error::ChannelRecvError)] {
        assert_eq!(
            stop_notices(Worker::CommandOutput, &outcome),
            vec![
                Notice::ToCommandExit(CommandExitEvent::Stop),
                Notice::ToUserInput(UserInputEvent::Stop),
                Notice::ToUserInterface(UserInterfaceEvent::Stop),
            ]
        );
        assert_eq!(
            stop_notices(Worker::UserInput, &outcome),
            vec![
                Notice::ToCommandExit(CommandExitEvent::Stop),
                Notice::ToCommandOutput(CommandOutputEvent::Stop),
                Notice::ToUserInterface(UserInterfaceEvent::Stop),
            ]
        );
        assert_eq!(
            stop_notices(Worker::UserInterface, &outcome),
            vec![
                Notice::ToCommandExit(CommandExitEvent::Stop),
                Notice::ToCommandOutput(CommandOutputEvent::Stop),
                Notice::ToUserInput(UserInputEvent::Stop),
            ]
        );
    }
}
