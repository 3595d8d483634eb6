use liveshell::error::{Error, IoFailure, IoFailureKind};
use liveshell::events::{
    CommandExitEvent, CommandOutputEvent, Notice, UserInputEvent, UserInterfaceEvent,
};
use liveshell::user_input::{
    user_input, Dispatcher, DispatcherAction, DispatcherEvent, DispatcherPhase, DispatcherRequest,
    KillOutcome, SpawnOutcome,
};

fn echo(key: char) -> DispatcherAction {
    DispatcherAction::Send(Notice::ToUserInterface(UserInterfaceEvent::KeyPress(key)))
}

fn started(pid: i32) -> Vec<DispatcherAction> {
    vec![
        DispatcherAction::Send(Notice::ToCommandOutput(CommandOutputEvent::CommandStarted)),
        DispatcherAction::Send(Notice::ToCommandExit(CommandExitEvent::CommandStarted(pid))),
    ]
}

fn spawn_of(program: &str, args: &[&str]) -> DispatcherRequest {
    DispatcherRequest::Spawn {
        program: program.to_string(),
        args: args.iter().map(|arg| arg.to_string()).collect(),
    }
}

fn not_found() -> DispatcherEvent {
    DispatcherEvent::Spawn(SpawnOutcome::Failed(IoFailure {
        kind: IoFailureKind::NotFound,
        code: Some(2),
        message: "No such file or directory (os error 2)".to_string(),
    }))
}

fn exited(pid: i32, code: Option<i32>) -> DispatcherEvent {
    DispatcherEvent::Reply(UserInputEvent::CommandExited(pid, code))
}

fn killed() -> DispatcherEvent {
    DispatcherEvent::Kill(KillOutcome::Killed)
}

fn already_gone() -> DispatcherEvent {
    DispatcherEvent::Kill(KillOutcome::Failed(IoFailure {
        kind: IoFailureKind::Other,
        code: Some(3),
        message: "No such process (os error 3)".to_string(),
    }))
}

/// Presses `key` while the command `pid` runs, and has the kill succeed.
fn press_while_running(dispatcher: &mut Dispatcher, key: char, pid: i32) {
    assert_eq!(user_input(dispatcher, DispatcherEvent::Key(key)), Ok(vec![echo(key)]));
    assert_eq!(dispatcher.awaits(), DispatcherRequest::Kill(pid));
    assert_eq!(user_input(dispatcher, killed()), Ok(vec![]));
    assert_eq!(dispatcher.awaits(), DispatcherRequest::Reply);
}

/// Types `keys`; every spawn fails for want of the program.
fn type_without_programs(dispatcher: &mut Dispatcher, keys: &str) {
    for key in keys.chars() {
        assert_eq!(dispatcher.awaits(), DispatcherRequest::Key);
        assert_eq!(user_input(dispatcher, DispatcherEvent::Key(key)), Ok(vec![echo(key)]));
        if dispatcher.awaits() != DispatcherRequest::Key {
            assert_eq!(user_input(dispatcher, not_found()), Ok(vec![]));
        }
    }
}

/// A dispatcher with this command line and this command running.
fn running(line: &str, pid: i32) -> Dispatcher {
    let mut dispatcher = Dispatcher::new();
    let (last, before) = {
        let mut keys: Vec<char> = line.chars().collect();
        let last = keys.pop().unwrap();
        (last, keys.into_iter().collect::<String>())
    };
    type_without_programs(&mut dispatcher, &before);
    assert_eq!(user_input(&mut dispatcher, DispatcherEvent::Key(last)), Ok(vec![echo(last)]));
    let spawned = DispatcherEvent::Spawn(SpawnOutcome::Spawned(pid));
    assert_eq!(user_input(&mut dispatcher, spawned), Ok(started(pid)));
    assert_eq!(dispatcher.phase(), DispatcherPhase::Ready(Some(pid)));
    assert_eq!(dispatcher.command_text(), line);
    dispatcher
}

#[test]
fn dispatcher_starts_with_an_empty_line_and_waits_for_a_key() {
    let dispatcher = Dispatcher::new();
    assert_eq!(dispatcher.command_text(), "");
    assert_eq!(dispatcher.phase(), DispatcherPhase::Ready(None));
    assert_eq!(dispatcher.awaits(), DispatcherRequest::Key);
}

#[test]
fn every_key_is_echoed_even_when_it_changes_nothing() {
    let mut dispatcher = Dispatcher::new();
    for key in ['\u{1b}', '\r', '\n', '\u{8}', '\u{7f}', ' '] {
        assert_eq!(user_input(&mut dispatcher, DispatcherEvent::Key(key)), Ok(vec![echo(key)]));
        assert_eq!(dispatcher.awaits(), DispatcherRequest::Key);
    }
    assert_eq!(dispatcher.command_text(), " ");
}

#[test]
fn first_key_asks_for_a_spawn_of_the_line() {
    let mut dispatcher = Dispatcher::new();
    assert_eq!(user_input(&mut dispatcher, DispatcherEvent::Key('l')), Ok(vec![echo('l')]));
    assert_eq!(dispatcher.phase(), DispatcherPhase::Spawning);
    assert_eq!(dispatcher.awaits(), spawn_of("l", &[]));
}

#[test]
fn typing_ls_la_asks_for_ls_with_one_argument() {
    let mut dispatcher = Dispatcher::new();
    type_without_programs(&mut dispatcher, "ls -l");
    assert_eq!(user_input(&mut dispatcher, DispatcherEvent::Key('a')), Ok(vec![echo('a')]));
    assert_eq!(dispatcher.command_text(), "ls -la");
    assert_eq!(dispatcher.awaits(), spawn_of("ls", &["-la"]));
}

#[test]
fn missing_program_spawns_nothing_and_does_not_fail() {
    let mut dispatcher = Dispatcher::new();
    for key in "nonexistentcmd123".chars() {
        assert_eq!(user_input(&mut dispatcher, DispatcherEvent::Key(key)), Ok(vec![echo(key)]));
        assert!(matches!(dispatcher.awaits(), DispatcherRequest::Spawn { .. }));
        assert_eq!(user_input(&mut dispatcher, not_found()), Ok(vec![]));
        assert_eq!(dispatcher.phase(), DispatcherPhase::Ready(None));
        assert_eq!(dispatcher.awaits(), DispatcherRequest::Key);
    }
    assert_eq!(dispatcher.command_text(), "nonexistentcmd123");
    assert_eq!(user_input(&mut dispatcher, DispatcherEvent::Key('\u{8}')), Ok(vec![echo('\u{8}')]));
    assert_eq!(dispatcher.awaits(), spawn_of("nonexistentcmd12", &[]));
}

#[test]
fn other_spawn_failure_is_fatal() {
    let mut dispatcher = Dispatcher::new();
    user_input(&mut dispatcher, DispatcherEvent::Key('x')).unwrap();
    let failure = IoFailure {
        kind: IoFailureKind::Other,
        code: Some(13),
        message: "Permission denied (os error 13)".to_string(),
    };
    let failed = DispatcherEvent::Spawn(SpawnOutcome::Failed(failure.clone()));
    assert_eq!(user_input(&mut dispatcher, failed), Err(Error::IOError(failure)));
    assert_eq!(dispatcher.phase(), DispatcherPhase::Stopped);
    assert_eq!(dispatcher.awaits(), DispatcherRequest::Nothing);
}

#[test]
fn successful_spawn_is_told_to_relay_and_supervisor() {
    let mut dispatcher = Dispatcher::new();
    user_input(&mut dispatcher, DispatcherEvent::Key('w')).unwrap();
    let spawned = DispatcherEvent::Spawn(SpawnOutcome::Spawned(500));
    assert_eq!(user_input(&mut dispatcher, spawned), Ok(started(500)));
    assert_eq!(dispatcher.phase(), DispatcherPhase::Ready(Some(500)));
    assert_eq!(dispatcher.awaits(), DispatcherRequest::Key);
}

#[test]
fn key_while_a_command_runs_kills_it_and_waits_for_its_end() {
    let mut dispatcher = running("ls", 500);
    assert_eq!(user_input(&mut dispatcher, DispatcherEvent::Key('x')), Ok(vec![echo('x')]));
    assert_eq!(dispatcher.phase(), DispatcherPhase::Killing('x', 500));
    assert_eq!(dispatcher.awaits(), DispatcherRequest::Kill(500));
    assert_eq!(user_input(&mut dispatcher, killed()), Ok(vec![]));
    assert_eq!(dispatcher.phase(), DispatcherPhase::Reaping('x', 500));
    assert_eq!(dispatcher.awaits(), DispatcherRequest::Reply);
    assert_eq!(dispatcher.command_text(), "ls");
}

#[test]
fn kill_of_a_command_that_is_gone_is_no_failure() {
    let mut dispatcher = running("true", 500);
    assert_eq!(user_input(&mut dispatcher, DispatcherEvent::Key('x')), Ok(vec![echo('x')]));
    assert_eq!(user_input(&mut dispatcher, already_gone()), Ok(vec![]));
    assert_eq!(dispatcher.phase(), DispatcherPhase::Reaping('x', 500));
    assert_eq!(dispatcher.awaits(), DispatcherRequest::Reply);
    assert_eq!(
        user_input(&mut dispatcher, exited(500, Some(0))),
        Ok(vec![DispatcherAction::FlushTerminal])
    );
    assert_eq!(dispatcher.awaits(), spawn_of("truex", &[]));
}

#[test]
fn line_is_edited_and_spawned_only_after_the_end_is_acknowledged() {
    let mut dispatcher = running("ls", 500);
    press_while_running(&mut dispatcher, 'x', 500);
    assert_eq!(
        user_input(&mut dispatcher, exited(500, None)),
        Ok(vec![DispatcherAction::FlushTerminal])
    );
    assert_eq!(dispatcher.command_text(), "lsx");
    assert_eq!(dispatcher.phase(), DispatcherPhase::Spawning);
    assert_eq!(dispatcher.awaits(), spawn_of("lsx", &[]));
}

#[test]
fn command_that_exited_by_itself_is_reaped_without_failure() {
    let mut dispatcher = running("true", 500);
    press_while_running(&mut dispatcher, ' ', 500);
    assert_eq!(
        user_input(&mut dispatcher, exited(500, Some(0))),
        Ok(vec![DispatcherAction::FlushTerminal])
    );
    assert_eq!(dispatcher.awaits(), spawn_of("true", &[]));
}

#[test]
fn erasing_the_whole_line_leaves_no_command_running() {
    let mut dispatcher = running("w", 500);
    press_while_running(&mut dispatcher, '\u{7f}', 500);
    assert_eq!(
        user_input(&mut dispatcher, exited(500, None)),
        Ok(vec![DispatcherAction::FlushTerminal])
    );
    assert_eq!(dispatcher.command_text(), "");
    assert_eq!(dispatcher.phase(), DispatcherPhase::Ready(None));
    assert_eq!(dispatcher.awaits(), DispatcherRequest::Key);
}

#[test]
fn enter_runs_the_line_again() {
    let mut dispatcher = running("date", 500);
    press_while_running(&mut dispatcher, '\r', 500);
    user_input(&mut dispatcher, exited(500, Some(0))).unwrap();
    assert_eq!(dispatcher.command_text(), "date");
    assert_eq!(dispatcher.awaits(), spawn_of("date", &[]));
}

#[test]
fn stop_during_the_wait_ends_the_dispatcher() {
    let mut dispatcher = running("ls", 500);
    press_while_running(&mut dispatcher, 'x', 500);
    let stop = DispatcherEvent::Reply(UserInputEvent::Stop);
    assert_eq!(user_input(&mut dispatcher, stop), Ok(vec![]));
    assert_eq!(dispatcher.phase(), DispatcherPhase::Stopped);
    assert_eq!(dispatcher.awaits(), DispatcherRequest::Nothing);
    assert_eq!(dispatcher.command_text(), "ls");
}

#[test]
fn closed_mailbox_during_the_wait_fails_the_dispatcher() {
    let mut dispatcher = running("ls", 500);
    press_while_running(&mut dispatcher, 'x', 500);
    assert_eq!(
        user_input(&mut dispatcher, DispatcherEvent::MailboxClosed),
        Err(Error::ChannelRecvError)
    );
    assert_eq!(dispatcher.awaits(), DispatcherRequest::Nothing);
}

#[test]
fn end_of_input_ends_the_dispatcher_without_a_kill() {
    let mut dispatcher = running("sleep 9", 500);
    assert_eq!(user_input(&mut dispatcher, DispatcherEvent::EndOfInput), Ok(vec![]));
    assert_eq!(dispatcher.phase(), DispatcherPhase::Stopped);

    let mut idle = Dispatcher::new();
    assert_eq!(user_input(&mut idle, DispatcherEvent::EndOfInput), Ok(vec![]));
    assert_eq!(idle.awaits(), DispatcherRequest::Nothing);
}

#[test]
fn dispatcher_ignores_what_it_does_not_wait_for() {
    let mut dispatcher = Dispatcher::new();
    assert_eq!(user_input(&mut dispatcher, exited(1, None)), Ok(vec![]));
    assert_eq!(user_input(&mut dispatcher, DispatcherEvent::MailboxClosed), Ok(vec![]));
    let spawned = DispatcherEvent::Spawn(SpawnOutcome::Spawned(7));
    assert_eq!(user_input(&mut dispatcher, spawned.clone()), Ok(vec![]));
    assert_eq!(dispatcher.phase(), DispatcherPhase::Ready(None));

    user_input(&mut dispatcher, DispatcherEvent::Key('a')).unwrap();
    assert_eq!(user_input(&mut dispatcher, DispatcherEvent::Key('b')), Ok(vec![]));
    assert_eq!(user_input(&mut dispatcher, DispatcherEvent::EndOfInput), Ok(vec![]));
    assert_eq!(dispatcher.command_text(), "a");
    assert_eq!(dispatcher.phase(), DispatcherPhase::Spawning);

    let mut killing = running("a", 7);
    user_input(&mut killing, DispatcherEvent::Key('b')).unwrap();
    assert_eq!(user_input(&mut killing, DispatcherEvent::Key('c')), Ok(vec![]));
    assert_eq!(user_input(&mut killing, exited(7, None)), Ok(vec![]));
    assert_eq!(user_input(&mut killing, DispatcherEvent::MailboxClosed), Ok(vec![]));
    assert_eq!(killing.phase(), DispatcherPhase::Killing('b', 7));

    let mut reaping = running("a", 7);
    press_while_running(&mut reaping, 'b', 7);
    assert_eq!(user_input(&mut reaping, DispatcherEvent::Key('c')), Ok(vec![]));
    assert_eq!(user_input(&mut reaping, killed()), Ok(vec![]));
    assert_eq!(user_input(&mut reaping, spawned.clone()), Ok(vec![]));
    assert_eq!(reaping.phase(), DispatcherPhase::Reaping('b', 7));

    let mut stopped = Dispatcher::new();
    user_input(&mut stopped, DispatcherEvent::EndOfInput).unwrap();
    assert_eq!(user_input(&mut stopped, DispatcherEvent::Key('z')), Ok(vec![]));
    assert_eq!(user_input(&mut stopped, spawned), Ok(vec![]));
    assert_eq!(stopped.command_text(), "");
    assert_eq!(stopped.phase(), DispatcherPhase::Stopped);
}

#[test]
fn never_more_than_one_command_between_spawn_and_acknowledged_end() {
    let mut dispatcher = Dispatcher::new();
    let mut alive: Vec<i32> = Vec::new();
    let mut next_pid = 100;
    for key in "echo hello world".chars() {
        let mut event = DispatcherEvent::Key(key);
        loop {
            let actions = user_input(&mut dispatcher, event).unwrap();
            for action in actions {
                if let DispatcherAction::Send(Notice::ToCommandExit(
                    CommandExitEvent::CommandStarted(pid),
                )) = action
                {
                    assert_eq!(alive, vec![pid]);
                }
            }
            event = match dispatcher.awaits() {
                DispatcherRequest::Key => break,
                DispatcherRequest::Kill(pid) => {
                    assert_eq!(alive, vec![pid]);
                    killed()
                }
                DispatcherRequest::Reply => {
                    let pid = alive.pop().unwrap();
                    assert!(alive.is_empty());
                    exited(pid, None)
                }
                DispatcherRequest::Spawn { .. } => {
                    assert!(alive.is_empty());
                    next_pid += 1;
                    alive.push(next_pid);
                    DispatcherEvent::Spawn(SpawnOutcome::Spawned(next_pid))
                }
                DispatcherRequest::Nothing => unreachable!(),
            };
            assert!(alive.len() <= 1);
        }
    }
    assert_eq!(alive, vec![next_pid]);
    assert_eq!(next_pid, 100 + "echo hello world".chars().count() as i32);
}
