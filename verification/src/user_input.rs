//! The dispatcher: the worker that turns keystrokes into commands.
//!
//! It owns the command line and the one command that may be running. For
//! every keystroke it has the renderer echo the key, has the running command
//! killed and waits until its end is acknowledged, edits the command line,
//! and has the new line spawned. The dispatcher itself touches neither
//! processes nor mailboxes: it says what it waits for, is handed what
//! happened, and answers with what is to be done.
//!
//! Two things that go wrong are no failures to the dispatcher: a kill that
//! fails, since the command may have ended by itself, and a spawn that finds
//! no such program, since the user may be in the middle of a word.

use crate::editing::{apply_key, edited, split_tokens, tokens, typed};
use crate::error::{Error, IoFailure, IoFailureKind};
use crate::events::{CommandExitEvent, CommandOutputEvent, Notice, UserInputEvent, UserInterfaceEvent};
use vstd::prelude::*;

verus! {

/// Where the dispatcher stands in the handling of a keystroke.
#[derive(Debug, Clone, Copy, PartialEq, Eq)]
pub enum DispatcherPhase {
    /// Between keystrokes; the command that is running, if any.
    Ready(Option<i32>),
    /// This key is being handled: the kill of the command with this process
    /// id is asked for.
    Killing(char, i32),
    /// This key is being handled: the command with this process id was
    /// killed, and its end is not yet acknowledged.
    Reaping(char, i32),
    /// The command line was edited and its spawn is asked for.
    Spawning,
    /// The dispatcher has ended.
    Stopped,
}

/// How an attempt to kill a command ended.
#[derive(Debug, Clone, PartialEq, Eq)]
pub enum KillOutcome {
    Killed,
    Failed(IoFailure),
}

/// How an attempt to spawn a command ended.
#[derive(Debug, Clone, PartialEq, Eq)]
pub enum SpawnOutcome {
    /// The command runs as the process with this id.
    Spawned(i32),
    Failed(IoFailure),
}

/// What can happen to the dispatcher.
#[derive(Debug, Clone, PartialEq, Eq)]
pub enum DispatcherEvent {
    /// The user typed this character.
    Key(char),
    /// Standard input is exhausted.
    EndOfInput,
    /// The kill that was asked for ended like this.
    Kill(KillOutcome),
    /// This message arrived in the dispatcher's mailbox.
    Reply(UserInputEvent),
    /// The dispatcher's mailbox was closed.
    MailboxClosed,
    /// The spawn that was asked for ended like this.
    Spawn(SpawnOutcome),
}

/// What the dispatcher wants done, apart from waiting.
#[derive(Debug, Clone, PartialEq, Eq)]
pub enum DispatcherAction {
    Send(Notice),
    /// Discard what is queued on the pseudoterminal, in both directions.
    FlushTerminal,
}

/// What the dispatcher waits for.
#[derive(Debug, Clone, PartialEq, Eq)]
pub enum DispatcherRequest {
    /// The next keystroke.
    Key,
    /// The outcome of killing the process with this id.
    Kill(i32),
    /// The next message in the dispatcher's mailbox.
    Reply,
    /// The outcome of spawning this program with these arguments, its three
    /// standard streams on the pseudoterminal.
    Spawn { program: String, args: Vec<String> },
    /// Nothing: the dispatcher has ended.
    Nothing,
}

/// The dispatcher as a mathematical value.
pub struct DispatcherState {
    pub command_text: Seq<char>,
    pub phase: DispatcherPhase,
}

/// The dispatcher before the first keystroke.
pub open spec fn initial_state() -> DispatcherState {
    DispatcherState { command_text: Seq::empty(), phase: DispatcherPhase::Ready(None) }
}

/// The state once `key` has edited the command line, no command running:
/// a line without tokens spawns nothing.
pub open spec fn state_after_edit(command_text: Seq<char>, key: char) -> DispatcherState {
    let line = edited(command_text, key);
    DispatcherState {
        command_text: line,
        phase: if tokens(line).len() == 0 {
            DispatcherPhase::Ready(None)
        } else {
            DispatcherPhase::Spawning
        },
    }
}

/// The state after `event`. However the kill of the running command ends,
/// the dispatcher goes on to wait for the acknowledgment of the command's
/// end. An event that the dispatcher does not wait for changes nothing.
pub open spec fn next_state(state: DispatcherState, event: DispatcherEvent) -> DispatcherState {
    match (state.phase, event) {
        (DispatcherPhase::Ready(Some(pid)), DispatcherEvent::Key(key)) => DispatcherState {
            phase: DispatcherPhase::Killing(key, pid),
            ..state
        },
        (DispatcherPhase::Killing(key, pid), DispatcherEvent::Kill(_)) => DispatcherState {
            phase: DispatcherPhase::Reaping(key, pid),
            ..state
        },
        (DispatcherPhase::Ready(None), DispatcherEvent::Key(key)) => state_after_edit(
            state.command_text,
            key,
        ),
        (DispatcherPhase::Ready(_), DispatcherEvent::EndOfInput) => DispatcherState {
            phase: DispatcherPhase::Stopped,
            ..state
        },
        (
            DispatcherPhase::Reaping(key, _),
            DispatcherEvent::Reply(UserInputEvent::CommandExited(_, _)),
        ) => state_after_edit(state.command_text, key),
        (DispatcherPhase::Reaping(_, _), DispatcherEvent::Reply(UserInputEvent::Stop)) => {
            DispatcherState { phase: DispatcherPhase::Stopped, ..state }
        },
        (DispatcherPhase::Reaping(_, _), DispatcherEvent::MailboxClosed) => DispatcherState {
            phase: DispatcherPhase::Stopped,
            ..state
        },
        (DispatcherPhase::Spawning, DispatcherEvent::Spawn(SpawnOutcome::Spawned(pid))) => {
            DispatcherState { phase: DispatcherPhase::Ready(Some(pid)), ..state }
        },
        (DispatcherPhase::Spawning, DispatcherEvent::Spawn(SpawnOutcome::Failed(failure))) => {
            DispatcherState {
                phase: if failure.kind is NotFound {
                    DispatcherPhase::Ready(None)
                } else {
                    DispatcherPhase::Stopped
                },
                ..state
            }
        },
        _ => state,
    }
}

/// The failure that `event` is to the dispatcher, if it is one: a closed
/// mailbox while an acknowledgment is awaited, and a spawn that failed for
/// another reason than that the program does not exist.
pub open spec fn failure_of(state: DispatcherState, event: DispatcherEvent) -> Option<Error> {
    match (state.phase, event) {
        (DispatcherPhase::Reaping(_, _), DispatcherEvent::MailboxClosed) => Some(
            Error::ChannelRecvError,
        ),
        (DispatcherPhase::Spawning, DispatcherEvent::Spawn(SpawnOutcome::Failed(failure))) => {
            if failure.kind is NotFound {
                None
            } else {
                Some(Error::IOError(failure))
            }
        },
        _ => None,
    }
}

/// The echo of a keystroke to the renderer.
pub open spec fn echo_of(key: char) -> DispatcherAction {
    DispatcherAction::Send(Notice::ToUserInterface(UserInterfaceEvent::KeyPress(key)))
}

/// What is to be done on `event`, in this order.
pub open spec fn actions_on(state: DispatcherState, event: DispatcherEvent) -> Seq<
    DispatcherAction,
> {
    match (state.phase, event) {
        (DispatcherPhase::Ready(_), DispatcherEvent::Key(key)) => seq![echo_of(key)],
        (
            DispatcherPhase::Reaping(_, _),
            DispatcherEvent::Reply(UserInputEvent::CommandExited(_, _)),
        ) => seq![DispatcherAction::FlushTerminal],
        (DispatcherPhase::Spawning, DispatcherEvent::Spawn(SpawnOutcome::Spawned(pid))) => seq![
            DispatcherAction::Send(Notice::ToCommandOutput(CommandOutputEvent::CommandStarted)),
            DispatcherAction::Send(Notice::ToCommandExit(CommandExitEvent::CommandStarted(pid))),
        ],
        _ => Seq::empty(),
    }
}

/// The dispatcher: the command line and the phase of the keystroke at hand.
#[derive(Debug)]
pub struct Dispatcher {
    command_text: String,
    phase: DispatcherPhase,
}

impl View for Dispatcher {
    type V = DispatcherState;

    closed spec fn view(&self) -> DispatcherState {
        DispatcherState { command_text: self.command_text@, phase: self.phase }
    }
}

impl Dispatcher {
    /// A spawn is only ever asked for a command line that names a program.
    #[verifier::type_invariant]
    spec fn names_a_program(self) -> bool {
        self.phase is Spawning ==> tokens(self.command_text@).len() > 0
    }

    /// A dispatcher with an empty command line and no command running.
    pub fn new() -> (dispatcher: Dispatcher)
        ensures
            dispatcher@ == initial_state(),
    {
        Dispatcher { command_text: String::new(), phase: DispatcherPhase::Ready(None) }
    }

    /// The command line as typed so far.
    pub fn command_text(&self) -> (text: &str)
        ensures
            text@ == self@.command_text,
    {
        self.command_text.as_str()
    }

    /// The phase of the keystroke at hand.
    pub fn phase(&self) -> (phase: DispatcherPhase)
        ensures
            phase == self@.phase,
    {
        self.phase
    }

    /// What the dispatcher waits for. A spawn is asked for the first token of
    /// the command line as the program and the tokens after it as arguments.
    pub fn awaits(&self) -> (request: DispatcherRequest)
        ensures
            match self@.phase {
                DispatcherPhase::Ready(_) => request is Key,
                DispatcherPhase::Killing(_, pid) => request == DispatcherRequest::Kill(pid),
                DispatcherPhase::Reaping(_, _) => request is Reply,
                DispatcherPhase::Spawning => {
                    &&& tokens(self@.command_text).len() > 0
                    &&& request matches DispatcherRequest::Spawn { program, args }
                    &&& program@ == tokens(self@.command_text).first()
                    &&& args.deep_view() == tokens(self@.command_text).drop_first()
                },
                DispatcherPhase::Stopped => request is Nothing,
            },
    {
        proof {
            use_type_invariant(self);
        }
        match self.phase {
            DispatcherPhase::Ready(_) => DispatcherRequest::Key,
            DispatcherPhase::Killing(_, pid) => DispatcherRequest::Kill(pid),
            DispatcherPhase::Reaping(_, _) => DispatcherRequest::Reply,
            DispatcherPhase::Spawning => {
                let mut args = split_tokens(self.command_text.as_str());
                let ghost all = args.deep_view();
                let program = args.remove(0);
                assert(args.deep_view() == all.drop_first());
                DispatcherRequest::Spawn { program, args }
            },
            DispatcherPhase::Stopped => DispatcherRequest::Nothing,
        }
    }
}

/// One step of the dispatcher: takes what happened and returns what is to be
/// done next, in order, or the failure that ends the dispatcher.
pub fn user_input(dispatcher: &mut Dispatcher, event: DispatcherEvent) -> (result: Result<
    Vec<DispatcherAction>,
    Error,
>)
    ensures
        final(dispatcher)@ == next_state(old(dispatcher)@, event),
        match result {
            Ok(actions) => failure_of(old(dispatcher)@, event) is None && actions@ == actions_on(
                old(dispatcher)@,
                event,
            ),
            Err(error) => failure_of(old(dispatcher)@, event) == Some(error),
        },
{
    let mut actions: Vec<DispatcherAction> = Vec::new();
    match (dispatcher.phase, event) {
        (DispatcherPhase::Ready(running), DispatcherEvent::Key(key)) => {
            actions.push(
                DispatcherAction::Send(Notice::ToUserInterface(UserInterfaceEvent::KeyPress(key))),
            );
            match running {
                Some(pid) => {
                    dispatcher.phase = DispatcherPhase::Killing(key, pid);
                },
                None => {
                    on_user_input_character(dispatcher, key);
                },
            }
        },
        (DispatcherPhase::Killing(key, pid), DispatcherEvent::Kill(_)) => {
            dispatcher.phase = DispatcherPhase::Reaping(key, pid);
        },
        (DispatcherPhase::Ready(_), DispatcherEvent::EndOfInput) => {
            dispatcher.phase = DispatcherPhase::Stopped;
        },
        (
            DispatcherPhase::Reaping(key, _),
            DispatcherEvent::Reply(UserInputEvent::CommandExited(_, _)),
        ) => {
            actions.push(DispatcherAction::FlushTerminal);
            on_user_input_character(dispatcher, key);
        },
        (DispatcherPhase::Reaping(_, _), DispatcherEvent::Reply(UserInputEvent::Stop)) => {
            dispatcher.phase = DispatcherPhase::Stopped;
        },
        (DispatcherPhase::Reaping(_, _), DispatcherEvent::MailboxClosed) => {
            dispatcher.phase = DispatcherPhase::Stopped;
            return Err(Error::ChannelRecvError);
        },
        (DispatcherPhase::Spawning, DispatcherEvent::Spawn(SpawnOutcome::Spawned(pid))) => {
            actions.push(
                DispatcherAction::Send(Notice::ToCommandOutput(CommandOutputEvent::CommandStarted)),
            );
            actions.push(
                DispatcherAction::Send(
                    Notice::ToCommandExit(CommandExitEvent::CommandStarted(pid)),
                ),
            );
            dispatcher.phase = DispatcherPhase::Ready(Some(pid));
        },
        (DispatcherPhase::Spawning, DispatcherEvent::Spawn(SpawnOutcome::Failed(failure))) => {
            match failure.kind {
                IoFailureKind::NotFound => {
                    dispatcher.phase = DispatcherPhase::Ready(None);
                },
                _ => {
                    dispatcher.phase = DispatcherPhase::Stopped;
                    return Err(Error::IOError(failure));
                },
            }
        },
        _ => {},
    }
    Ok(actions)
}

/// Edits the command line by `key` and decides whether a spawn follows. No
/// command is running when this is called.
fn on_user_input_character(dispatcher: &mut Dispatcher, key: char)
    requires
        !(old(dispatcher)@.phase is Spawning),
    ensures
        final(dispatcher)@ == state_after_edit(old(dispatcher)@.command_text, key),
{
    let mut line = dispatcher.command_text.clone();
    apply_key(&mut line, key);
    let found = split_tokens(line.as_str());
    dispatcher.command_text = line;
    if found.len() == 0 {
        dispatcher.phase = DispatcherPhase::Ready(None);
    } else {
        dispatcher.phase = DispatcherPhase::Spawning;
    }
}

/// The state after `events` were handled one by one, starting from the
/// initial state.
pub open spec fn state_after(events: Seq<DispatcherEvent>) -> DispatcherState
    decreases events.len(),
{
    if events.len() == 0 {
        initial_state()
    } else {
        next_state(state_after(events.drop_last()), events.last())
    }
}

/// The commands that were started during `events` and whose end was not yet
/// acknowledged: a spawn that the dispatcher waited for and that succeeded
/// adds its process, an acknowledgment that the dispatcher waited for takes
/// the killed process away.
pub open spec fn unreaped_after(events: Seq<DispatcherEvent>) -> Seq<i32>
    decreases events.len(),
{
    if events.len() == 0 {
        Seq::empty()
    } else {
        let earlier = unreaped_after(events.drop_last());
        match (state_after(events.drop_last()).phase, events.last()) {
            (DispatcherPhase::Spawning, DispatcherEvent::Spawn(SpawnOutcome::Spawned(pid))) => {
                earlier.push(pid)
            },
            (
                DispatcherPhase::Reaping(_, pid),
                DispatcherEvent::Reply(UserInputEvent::CommandExited(_, _)),
            ) => earlier.remove_value(pid),
            _ => earlier,
        }
    }
}

/// At most one command exists at any time. Whatever happens in whatever
/// order, the commands that were started and not yet acknowledged as ended
/// are at most one; it is the one that the dispatcher holds as running, as
/// being killed or as being reaped; and while a spawn is asked for there is
/// none.
pub proof fn lemma_one_command_at_a_time(events: Seq<DispatcherEvent>)
    ensures
        unreaped_after(events).len() <= 1,
        match state_after(events).phase {
            DispatcherPhase::Ready(Some(pid)) => unreaped_after(events) == seq![pid],
            DispatcherPhase::Ready(None) => unreaped_after(events).len() == 0,
            DispatcherPhase::Killing(_, pid) => unreaped_after(events) == seq![pid],
            DispatcherPhase::Reaping(_, pid) => unreaped_after(events) == seq![pid],
            DispatcherPhase::Spawning => unreaped_after(events).len() == 0,
            DispatcherPhase::Stopped => true,
        },
    decreases events.len(),
{
    if events.len() > 0 {
        let before = events.drop_last();
        lemma_one_command_at_a_time(before);
        match (state_after(before).phase, events.last()) {
            (DispatcherPhase::Spawning, DispatcherEvent::Spawn(SpawnOutcome::Spawned(pid))) => {
                assert(unreaped_after(before).push(pid) == seq![pid]);
            },
            (
                DispatcherPhase::Reaping(_, pid),
                DispatcherEvent::Reply(UserInputEvent::CommandExited(_, _)),
            ) => {
                let only = seq![pid];
                assert(only[0] == pid);
                only.index_of_first_ensures(pid);
                assert(only.remove_value(pid).len() == 0);
            },
            _ => {},
        }
    }
}

/// A spawn is only ever asked for a command line that names a program:
/// whatever happens in whatever order, while a spawn is asked for the
/// command line has a token.
pub proof fn lemma_spawn_names_a_program(events: Seq<DispatcherEvent>)
    ensures
        state_after(events).phase is Spawning ==> tokens(state_after(events).command_text).len()
            > 0,
    decreases events.len(),
{
    if events.len() > 0 {
        lemma_spawn_names_a_program(events.drop_last());
    }
}

/// A program that does not exist is no failure. Where the spawn that was
/// asked for fails because the program was not found, the dispatcher does
/// not fail, wants nothing done, holds no command as running, and waits for
/// the next keystroke with the command line as it is.
pub proof fn lemma_missing_program_is_no_failure(state: DispatcherState, failure: IoFailure)
    requires
        state.phase is Spawning,
        failure.kind is NotFound,
    ensures
        failure_of(state, DispatcherEvent::Spawn(SpawnOutcome::Failed(failure))) is None,
        actions_on(state, DispatcherEvent::Spawn(SpawnOutcome::Failed(failure))).len() == 0,
        next_state(state, DispatcherEvent::Spawn(SpawnOutcome::Failed(failure)))
            == (DispatcherState { phase: DispatcherPhase::Ready(None), ..state }),
{
}

/// Killing a command cannot fail the dispatcher. A keystroke while a command
/// runs asks for its kill; however the kill ends, the dispatcher waits for
/// the acknowledgment of the command's end; and whatever the acknowledgment
/// says of the process and its exit code, the dispatcher then has the
/// pseudoterminal flushed, edits the command line and goes on.
pub proof fn lemma_kill_never_fails(
    command_text: Seq<char>,
    key: char,
    pid: i32,
    killed: KillOutcome,
    reported: i32,
    code: Option<i32>,
)
    ensures
        ({
            let running = DispatcherState { command_text, phase: DispatcherPhase::Ready(Some(pid)) };
            &&& failure_of(running, DispatcherEvent::Key(key)) is None
            &&& next_state(running, DispatcherEvent::Key(key)) == (DispatcherState {
                command_text,
                phase: DispatcherPhase::Killing(key, pid),
            })
        }),
        ({
            let killing = DispatcherState { command_text, phase: DispatcherPhase::Killing(key, pid) };
            &&& failure_of(killing, DispatcherEvent::Kill(killed)) is None
            &&& next_state(killing, DispatcherEvent::Kill(killed)) == (DispatcherState {
                command_text,
                phase: DispatcherPhase::Reaping(key, pid),
            })
        }),
        ({
            let reaping = DispatcherState { command_text, phase: DispatcherPhase::Reaping(key, pid) };
            let reply = DispatcherEvent::Reply(UserInputEvent::CommandExited(reported, code));
            &&& failure_of(reaping, reply) is None
            &&& actions_on(reaping, reply) == seq![DispatcherAction::FlushTerminal]
            &&& next_state(reaping, reply) == state_after_edit(command_text, key)
        }),
{
}

/// The dispatcher fails on two events only: its mailbox is closed while it
/// waits for an acknowledgment, or the spawn that it asked for failed for
/// another reason than that the program does not exist.
pub proof fn lemma_failures_are_few(state: DispatcherState, event: DispatcherEvent)
    requires
        failure_of(state, event) is Some,
    ensures
        ({
            ||| state.phase is Reaping && event is MailboxClosed
            ||| {
                &&& state.phase is Spawning
                &&& event matches DispatcherEvent::Spawn(SpawnOutcome::Failed(failure))
                &&& !(failure.kind is NotFound)
            }
        }),
{
}

/// The keys that the dispatcher had echoed to the renderer during `events`:
/// those that arrived while it waited for a key.
pub open spec fn keys_echoed(events: Seq<DispatcherEvent>) -> Seq<char>
    decreases events.len(),
{
    if events.len() == 0 {
        Seq::empty()
    } else {
        let earlier = keys_echoed(events.drop_last());
        match (state_after(events.drop_last()).phase, events.last()) {
            (DispatcherPhase::Ready(_), DispatcherEvent::Key(key)) => earlier.push(key),
            _ => earlier,
        }
    }
}

/// The command line is what the echoed keys make of an empty line. Only
/// while a command is killed and reaped the key at hand is echoed and not
/// yet applied, and so it stays when the dispatcher is stopped during that
/// wait.
pub proof fn lemma_line_follows_keys(events: Seq<DispatcherEvent>)
    ensures
        match state_after(events).phase {
            DispatcherPhase::Ready(_) => state_after(events).command_text == typed(
                Seq::empty(),
                keys_echoed(events),
            ),
            DispatcherPhase::Spawning => state_after(events).command_text == typed(
                Seq::empty(),
                keys_echoed(events),
            ),
            DispatcherPhase::Killing(key, _) => {
                &&& keys_echoed(events).len() > 0
                &&& keys_echoed(events).last() == key
                &&& state_after(events).command_text == typed(
                    Seq::empty(),
                    keys_echoed(events).drop_last(),
                )
            },
            DispatcherPhase::Reaping(key, _) => {
                &&& keys_echoed(events).len() > 0
                &&& keys_echoed(events).last() == key
                &&& state_after(events).command_text == typed(
                    Seq::empty(),
                    keys_echoed(events).drop_last(),
                )
            },
            DispatcherPhase::Stopped => {
                ||| state_after(events).command_text == typed(Seq::empty(), keys_echoed(events))
                ||| keys_echoed(events).len() > 0 && state_after(events).command_text == typed(
                    Seq::empty(),
                    keys_echoed(events).drop_last(),
                )
            },
        },
    decreases events.len(),
{
    if events.len() > 0 {
        let before = events.drop_last();
        lemma_line_follows_keys(before);
        let earlier = keys_echoed(before);
        match (state_after(before).phase, events.last()) {
            (DispatcherPhase::Ready(_), DispatcherEvent::Key(key)) => {
                assert(earlier.push(key).drop_last() == earlier);
            },
            _ => {},
        }
    }
}

} // verus!
