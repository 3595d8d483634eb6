use liveshell::command_exit::{
    command_exit, ExitSupervisor, SupervisorEvent, SupervisorRequest, WaitReport,
};
use liveshell::command_output::{command_output, OutputRelay, RelayEvent, RelayRequest};
use liveshell::decoding::KeyDecoder;
use liveshell::events::{
    CommandExitEvent, CommandOutputEvent, Notice, UserInputEvent, UserInterfaceEvent,
};
use liveshell::user_input::{
    user_input, Dispatcher, DispatcherAction, DispatcherEvent, DispatcherRequest, KillOutcome,
    SpawnOutcome,
};
use liveshell::user_interface::{user_interface, Renderer, RendererEvent, ScreenOp};

/// The four workers, and a stand-in for the operating system that "runs"
/// `echo` only: every other program does not exist.
struct Session {
    decoder: KeyDecoder,
    dispatcher: Dispatcher,
    supervisor: ExitSupervisor,
    relay: OutputRelay,
    renderer: Renderer,
    next_pid: i32,
    alive: Vec<i32>,
    pending_output: Vec<u8>,
    log: Vec<String>,
    spawns: Vec<(String, Vec<String>)>,
    output_events: Vec<String>,
    screen: Vec<u8>,
}

impl Session {
    fn new() -> Session {
        let (renderer, ops) = Renderer::start();
        let mut session = Session {
            decoder: KeyDecoder::new(),
            dispatcher: Dispatcher::new(),
            supervisor: ExitSupervisor::new(),
            relay: OutputRelay::new(),
            renderer,
            next_pid: 1000,
            alive: Vec::new(),
            pending_output: Vec::new(),
            log: Vec::new(),
            spawns: Vec::new(),
            output_events: Vec::new(),
            screen: Vec::new(),
        };
        session.draw(ops);
        session
    }

    fn draw(&mut self, ops: Vec<ScreenOp>) {
        for op in ops {
            if let ScreenOp::Write(bytes) = op {
                self.screen.extend_from_slice(&bytes);
            }
        }
    }

    fn to_renderer(&mut self, message: UserInterfaceEvent) {
        if let UserInterfaceEvent::CommandOutput(text) = &message {
            self.output_events.push(text.clone());
        }
        let ops = user_interface(&mut self.renderer, RendererEvent::Message(message));
        self.draw(ops);
    }

    fn to_relay(&mut self, message: CommandOutputEvent) {
        let mut event = RelayEvent::Message(message);
        loop {
            if let Some(forward) = command_output(&mut self.relay, event).unwrap() {
                self.to_renderer(forward);
            }
            event = match self.relay.awaits() {
                RelayRequest::Poll => RelayEvent::NoMessage,
                RelayRequest::Read(limit) => {
                    let count = self.pending_output.len().min(limit);
                    RelayEvent::Read(self.pending_output.drain(..count).collect())
                }
                RelayRequest::Message | RelayRequest::Nothing => break,
            };
        }
    }

    /// Has the supervisor wait for `pid` and returns what it tells the
    /// dispatcher.
    fn reap(&mut self, pid: i32, report: WaitReport) -> UserInputEvent {
        let started = SupervisorEvent::Message(CommandExitEvent::CommandStarted(pid));
        assert_eq!(command_exit(&mut self.supervisor, started), Ok(vec![]));
        assert_eq!(self.supervisor.awaits(), SupervisorRequest::Wait(pid));
        let notices = command_exit(&mut self.supervisor, SupervisorEvent::Waited(Ok(report))).unwrap();
        let mut reply = None;
        for notice in notices {
            match notice {
                Notice::ToCommandOutput(message) => self.to_relay(message),
                Notice::ToUserInput(message) => reply = Some(message),
                Notice::ToUserInterface(message) => self.to_renderer(message),
                Notice::ToCommandExit(_) => unreachable!(),
            }
        }
        reply.unwrap()
    }

    fn press(&mut self, bytes: &[u8]) {
        let text = self.decoder.feed(bytes);
        for key in text.chars() {
            let mut event = DispatcherEvent::Key(key);
            loop {
                for action in user_input(&mut self.dispatcher, event).unwrap() {
                    match action {
                        DispatcherAction::Send(Notice::ToUserInterface(message)) => {
                            self.to_renderer(message)
                        }
                        DispatcherAction::Send(Notice::ToCommandOutput(message)) => {
                            self.to_relay(message)
                        }
                        DispatcherAction::Send(Notice::ToCommandExit(
                            CommandExitEvent::CommandStarted(pid),
                        )) => self.log.push(format!("started {}", pid)),
                        DispatcherAction::Send(_) => unreachable!(),
                        DispatcherAction::FlushTerminal => {
                            self.pending_output.clear();
                            self.log.push("flush".to_string());
                        }
                    }
                }
                event = match self.dispatcher.awaits() {
                    DispatcherRequest::Key => break,
                    DispatcherRequest::Kill(pid) => {
                        assert_eq!(self.alive, vec![pid]);
                        self.log.push(format!("kill {}", pid));
                        DispatcherEvent::Kill(KillOutcome::Failed(liveshell::error::IoFailure {
                            kind: liveshell::error::IoFailureKind::Other,
                            code: Some(3),
                            message: "already gone".to_string(),
                        }))
                    }
                    DispatcherRequest::Reply => {
                        let pid = self.alive.pop().unwrap();
                        let reply = self.reap(pid, WaitReport::Exited(pid, 0));
                        self.log.push(format!("reaped {}", pid));
                        DispatcherEvent::Reply(reply)
                    }
                    DispatcherRequest::Spawn { program, args } => {
                        assert!(self.alive.is_empty());
                        if program == "echo" {
                            self.next_pid += 1;
                            self.alive.push(self.next_pid);
                            self.pending_output = format!("{}\n", args.join(" ")).into_bytes();
                            self.log.push(format!("spawn {} {:?}", program, args));
                            self.spawns.push((program, args));
                            DispatcherEvent::Spawn(SpawnOutcome::Spawned(self.next_pid))
                        } else {
                            DispatcherEvent::Spawn(SpawnOutcome::Failed(
                                liveshell::error::IoFailure {
                                    kind: liveshell::error::IoFailureKind::NotFound,
                                    code: Some(2),
                                    message: "not found".to_string(),
                                },
                            ))
                        }
                    }
                    DispatcherRequest::Nothing => unreachable!(),
                };
            }
        }
    }
}

#[test]
fn typing_echo_hi_spawns_echo_and_shows_hi() {
    let mut session = Session::new();
    for key in ["e", "c", "h", "o", " ", "h", "i"] {
        session.press(key.as_bytes());
    }
    assert_eq!(session.dispatcher.command_text(), "echo hi");
    assert_eq!(session.renderer.command_text(), "echo hi");
    assert_eq!(
        session.spawns.last(),
        Some(&("echo".to_string(), vec!["hi".to_string()]))
    );
    assert_eq!(session.output_events.last(), Some(&"hi\n".to_string()));
    assert!(session.screen.starts_with(b"\x1b[2J\x1b[1;1H"));
    assert!(session.screen.ends_with(b"\x1b[2;1H\x1b[0Jhi\n"));
}

#[test]
fn one_more_key_reaps_the_finished_echo_before_it_spawns_again() {
    let mut session = Session::new();
    session.press(b"echo hi");
    let before = session.log.len();
    let old_pid = *session.alive.last().unwrap();
    session.press(b"!");
    assert_eq!(
        session.log[before..].to_vec(),
        vec![
            format!("kill {}", old_pid),
            format!("reaped {}", old_pid),
            "flush".to_string(),
            "spawn echo [\"hi!\"]".to_string(),
            format!("started {}", old_pid + 1),
        ]
    );
    assert_eq!(
        session.spawns.last(),
        Some(&("echo".to_string(), vec!["hi!".to_string()]))
    );
    assert_eq!(session.output_events.last(), Some(&"hi!\n".to_string()));
    assert_eq!(session.alive, vec![old_pid + 1]);
}

#[test]
fn startup_sequence_is_written_once_and_first() {
    let mut session = Session::new();
    session.press(b"echo hi!");
    let startup = b"\x1b[2J\x1b[1;1H";
    assert!(session.screen.starts_with(startup));
    let later = &session.screen[startup.len()..];
    assert!(!later.windows(4).any(|window| window == b"\x1b[2J"));
}
