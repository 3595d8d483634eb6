//! The renderer: the one worker that writes to the screen.
//!
//! Line 1 shows the command as it is typed, everything below shows what the
//! command prints. The renderer keeps its own copy of the command line, built
//! from the echoed keystrokes by the rules that the dispatcher edits by. It
//! writes nothing itself: it answers each event with the bytes to write and
//! the terminal modes to set, in order.

use crate::editing::{apply_key, edited, is_plain, lemma_typed_is_plain, typed};
use crate::events::UserInterfaceEvent;
use crate::terminal::TerminalMode;
use vstd::prelude::*;
use vstd::string::{StrSliceExecFns, StringSliceAdditionalSpecFns};
use vstd::utf8::{encode_scalar, encode_utf8};

verus! {

/// One thing to do to the terminal.
#[derive(Debug, Clone, PartialEq, Eq)]
pub enum ScreenOp {
    /// Write these bytes as they are.
    Write(Vec<u8>),
    /// Have all that was written so far reach the terminal.
    Flush,
    /// Put the terminal into this mode, at once.
    SetMode(TerminalMode),
}

/// A `ScreenOp` as a mathematical value.
pub enum ScreenStep {
    Write(Seq<u8>),
    Flush,
    SetMode(TerminalMode),
}

impl DeepView for ScreenOp {
    type V = ScreenStep;

    open spec fn deep_view(&self) -> ScreenStep {
        match self {
            ScreenOp::Write(bytes) => ScreenStep::Write(bytes@),
            ScreenOp::Flush => ScreenStep::Flush,
            ScreenOp::SetMode(mode) => ScreenStep::SetMode(*mode),
        }
    }
}

/// `ESC [ 2 J`: erase the whole display and keep what has scrolled off.
pub open spec fn erase_display() -> Seq<u8> {
    seq![0x1bu8, 0x5b, 0x32, 0x4a]
}

/// `ESC [ 1 ; 1 H`: cursor to row 1, column 1.
pub open spec fn cursor_to_command() -> Seq<u8> {
    seq![0x1bu8, 0x5b, 0x31, 0x3b, 0x31, 0x48]
}

/// `ESC [ 0 K`: erase from the cursor to the end of the line.
pub open spec fn erase_line() -> Seq<u8> {
    seq![0x1bu8, 0x5b, 0x30, 0x4b]
}

/// `ESC [ 2 ; 1 H`: cursor to row 2, column 1.
pub open spec fn cursor_to_output() -> Seq<u8> {
    seq![0x1bu8, 0x5b, 0x32, 0x3b, 0x31, 0x48]
}

/// `ESC [ 0 J`: erase from the cursor to the end of the screen.
pub open spec fn erase_below() -> Seq<u8> {
    seq![0x1bu8, 0x5b, 0x30, 0x4a]
}

/// The full block U+2588 in UTF-8: it stands where the next character goes.
pub open spec fn cursor_glyph() -> Seq<u8> {
    seq![0xe2u8, 0x96, 0x88]
}

/// The glyph is the character U+2588 as UTF-8 writes it.
pub proof fn lemma_cursor_glyph_is_full_block()
    ensures
        cursor_glyph() == vstd::utf8::encode_utf8(seq!['\u{2588}']),
{
    let block = seq!['\u{2588}'];
    let scalar = block[0] as u32;
    assert(scalar == 0x2588u32);
    assert(0xE0u8 | ((0x2588u32 >> 12) & 0x0F) as u8 == 0xe2u8) by (bit_vector);
    assert(0x80u8 | ((0x2588u32 >> 6) & 0x3F) as u8 == 0x96u8) by (bit_vector);
    assert(0x80u8 | (0x2588u32 & 0x3F) as u8 == 0x88u8) by (bit_vector);
    assert(vstd::utf8::encode_scalar(scalar) == cursor_glyph());
    assert(block.drop_first().len() == 0);
    assert(vstd::utf8::encode_utf8(block.drop_first()) == Seq::<u8>::empty());
    assert(cursor_glyph() + Seq::<u8>::empty() == cursor_glyph());
}

/// What the renderer does before its first event: a blank screen with the
/// cursor at the top.
pub open spec fn startup_steps() -> Seq<ScreenStep> {
    seq![ScreenStep::Write(erase_display() + cursor_to_command()), ScreenStep::Flush]
}

/// Line 1 drawn anew for this command line: the line is erased in place,
/// then come the text and the glyph.
pub open spec fn command_steps(command_text: Seq<char>) -> Seq<ScreenStep> {
    seq![
        ScreenStep::Write(
            cursor_to_command() + erase_line() + vstd::utf8::encode_utf8(command_text)
                + cursor_glyph(),
        ),
        ScreenStep::Flush,
    ]
}

/// The output region drawn anew with this text. The text is written in the
/// terminal's original mode, in which a line feed starts a new line; after
/// it the raw mode is back.
pub open spec fn output_steps(output: Seq<char>) -> Seq<ScreenStep> {
    seq![
        ScreenStep::Write(cursor_to_output() + erase_below()),
        ScreenStep::Flush,
        ScreenStep::SetMode(TerminalMode::Original),
        ScreenStep::Write(vstd::utf8::encode_utf8(output)),
        ScreenStep::Flush,
        ScreenStep::SetMode(TerminalMode::Raw),
    ]
}

/// What can happen to the renderer.
#[derive(Debug, Clone, PartialEq, Eq)]
pub enum RendererEvent {
    /// This message arrived in the renderer's mailbox.
    Message(UserInterfaceEvent),
    /// The renderer's mailbox was closed.
    MailboxClosed,
}

/// The renderer as a mathematical value.
pub struct RendererState {
    /// The renderer's copy of the command line.
    pub command_text: Seq<char>,
    /// Whether the renderer has ended.
    pub stopped: bool,
}

/// The renderer after `event`. Once it has ended nothing changes it.
pub open spec fn next_state(state: RendererState, event: RendererEvent) -> RendererState {
    if state.stopped {
        state
    } else {
        match event {
            RendererEvent::Message(UserInterfaceEvent::KeyPress(key)) => RendererState {
                command_text: edited(state.command_text, key),
                ..state
            },
            RendererEvent::Message(UserInterfaceEvent::CommandOutput(_)) => state,
            RendererEvent::Message(UserInterfaceEvent::CommandExited(_, _)) => state,
            RendererEvent::Message(UserInterfaceEvent::Stop) => RendererState {
                stopped: true,
                ..state
            },
            RendererEvent::MailboxClosed => RendererState { stopped: true, ..state },
        }
    }
}

/// What the renderer does to the terminal on `event`. That a command has
/// ended shows nowhere.
pub open spec fn steps_on(state: RendererState, event: RendererEvent) -> Seq<ScreenStep> {
    if state.stopped {
        Seq::empty()
    } else {
        match event {
            RendererEvent::Message(UserInterfaceEvent::KeyPress(key)) => command_steps(
                edited(state.command_text, key),
            ),
            RendererEvent::Message(UserInterfaceEvent::CommandOutput(output)) => output_steps(
                output@,
            ),
            _ => Seq::empty(),
        }
    }
}

/// The renderer: its copy of the command line, and whether it has ended.
#[derive(Debug)]
pub struct Renderer {
    command_text: String,
    stopped: bool,
}

impl View for Renderer {
    type V = RendererState;

    closed spec fn view(&self) -> RendererState {
        RendererState { command_text: self.command_text@, stopped: self.stopped }
    }
}

impl Renderer {
    /// A renderer with an empty command line, and what it does to the
    /// terminal before any event.
    pub fn start() -> (started: (Renderer, Vec<ScreenOp>))
        ensures
            started.0@ == (RendererState { command_text: Seq::empty(), stopped: false }),
            started.1.deep_view() == startup_steps(),
    {
        let mut bytes: Vec<u8> = vec![0x1b, 0x5b, 0x32, 0x4a];
        let mut home: Vec<u8> = vec![0x1b, 0x5b, 0x31, 0x3b, 0x31, 0x48];
        bytes.append(&mut home);
        let ops = vec![ScreenOp::Write(bytes), ScreenOp::Flush];
        assert(ops.deep_view() == startup_steps());
        (Renderer { command_text: String::new(), stopped: false }, ops)
    }

    /// The renderer's copy of the command line.
    pub fn command_text(&self) -> (text: &str)
        ensures
            text@ == self@.command_text,
    {
        self.command_text.as_str()
    }

    /// Whether the renderer has ended and waits for nothing more.
    pub fn is_stopped(&self) -> (stopped: bool)
        ensures
            stopped == self@.stopped,
    {
        self.stopped
    }
}

/// One step of the renderer: takes what arrived and returns what is to be
/// done to the terminal, in order.
pub fn user_interface(renderer: &mut Renderer, event: RendererEvent) -> (ops: Vec<ScreenOp>)
    ensures
        final(renderer)@ == next_state(old(renderer)@, event),
        ops.deep_view() == steps_on(old(renderer)@, event),
{
    if renderer.stopped {
        return Vec::new();
    }
    match event {
        RendererEvent::Message(message) => {
            let (result, ops) = handle_user_interface_event(&mut renderer.command_text, message);
            match result {
                UserInterfaceResult::Continue => {},
                UserInterfaceResult::Stop => {
                    renderer.stopped = true;
                },
            }
            ops
        },
        RendererEvent::MailboxClosed => {
            renderer.stopped = true;
            Vec::new()
        },
    }
}

/// Whether the renderer goes on after an event.
#[derive(Debug, Clone, Copy, PartialEq, Eq)]
pub enum UserInterfaceResult {
    Continue,
    Stop,
}

/// Handles one message to the renderer: edits the copy of the command line
/// on a keystroke, and returns what is to be done to the terminal.
pub fn handle_user_interface_event(command_text: &mut String, event: UserInterfaceEvent) -> (handled:
    (UserInterfaceResult, Vec<ScreenOp>))
    ensures
        handled.0 is Stop <==> event is Stop,
        final(command_text)@ == match event {
            UserInterfaceEvent::KeyPress(key) => edited(old(command_text)@, key),
            _ => old(command_text)@,
        },
        handled.1.deep_view() == match event {
            UserInterfaceEvent::KeyPress(key) => command_steps(edited(old(command_text)@, key)),
            UserInterfaceEvent::CommandOutput(output) => output_steps(output@),
            _ => Seq::empty(),
        },
{
    match event {
        UserInterfaceEvent::Stop => (UserInterfaceResult::Stop, Vec::new()),
        UserInterfaceEvent::CommandExited(_, _) => (UserInterfaceResult::Continue, Vec::new()),
        UserInterfaceEvent::CommandOutput(output) => {
            let mut region: Vec<u8> = vec![0x1b, 0x5b, 0x32, 0x3b, 0x31, 0x48];
            let mut erase: Vec<u8> = vec![0x1b, 0x5b, 0x30, 0x4a];
            region.append(&mut erase);
            let text = output.as_str().as_bytes_vec();
            let ops = vec![
                ScreenOp::Write(region),
                ScreenOp::Flush,
                ScreenOp::SetMode(TerminalMode::Original),
                ScreenOp::Write(text),
                ScreenOp::Flush,
                ScreenOp::SetMode(TerminalMode::Raw),
            ];
            assert(ops.deep_view() == output_steps(output@));
            (UserInterfaceResult::Continue, ops)
        },
        UserInterfaceEvent::KeyPress(key) => {
            apply_key(command_text, key);
            let mut line: Vec<u8> = vec![0x1b, 0x5b, 0x31, 0x3b, 0x31, 0x48];
            let mut erase: Vec<u8> = vec![0x1b, 0x5b, 0x30, 0x4b];
            let mut text = command_text.as_str().as_bytes_vec();
            let mut glyph: Vec<u8> = vec![0xe2, 0x96, 0x88];
            line.append(&mut erase);
            line.append(&mut text);
            line.append(&mut glyph);
            let ops = vec![ScreenOp::Write(line), ScreenOp::Flush];
            assert(ops.deep_view() == command_steps(command_text@));
            (UserInterfaceResult::Continue, ops)
        },
    }
}

/// The renderer before its first event.
pub open spec fn initial_state() -> RendererState {
    RendererState { command_text: Seq::empty(), stopped: false }
}

/// The renderer after `events` were handled one by one, starting from the
/// initial state.
pub open spec fn state_after(events: Seq<RendererEvent>) -> RendererState
    decreases events.len(),
{
    if events.len() == 0 {
        initial_state()
    } else {
        next_state(state_after(events.drop_last()), events.last())
    }
}

/// The keys among `events` that reached the renderer before it ended.
pub open spec fn keys_shown(events: Seq<RendererEvent>) -> Seq<char>
    decreases events.len(),
{
    if events.len() == 0 {
        Seq::empty()
    } else {
        let earlier = keys_shown(events.drop_last());
        if state_after(events.drop_last()).stopped {
            earlier
        } else {
            match events.last() {
                RendererEvent::Message(UserInterfaceEvent::KeyPress(key)) => earlier.push(key),
                _ => earlier,
            }
        }
    }
}

/// The renderer's copy of the command line is what the keys that it was
/// shown make of an empty line, whatever else arrived in between.
pub proof fn lemma_copy_follows_keys(events: Seq<RendererEvent>)
    ensures
        state_after(events).command_text == typed(Seq::empty(), keys_shown(events)),
    decreases events.len(),
{
    if events.len() > 0 {
        lemma_copy_follows_keys(events.drop_last());
        let earlier = keys_shown(events.drop_last());
        if !state_after(events.drop_last()).stopped {
            match events.last() {
                RendererEvent::Message(UserInterfaceEvent::KeyPress(key)) => {
                    assert(earlier.push(key).drop_last() == earlier);
                },
                _ => {},
            }
        }
    }
}

/// The bytes that these steps write, in order.
pub open spec fn bytes_written(steps: Seq<ScreenStep>) -> Seq<u8>
    decreases steps.len(),
{
    if steps.len() == 0 {
        Seq::empty()
    } else {
        bytes_written(steps.drop_last()) + match steps.last() {
            ScreenStep::Write(bytes) => bytes,
            _ => Seq::empty(),
        }
    }
}

/// All the bytes that the renderer writes in a run: those of its start, and
/// then those that each of `events` has it write, in order.
pub open spec fn run_output(events: Seq<RendererEvent>) -> Seq<u8>
    decreases events.len(),
{
    if events.len() == 0 {
        bytes_written(startup_steps())
    } else {
        run_output(events.drop_last()) + bytes_written(
            steps_on(state_after(events.drop_last()), events.last()),
        )
    }
}

/// Whether the sequence that erases the display stands at `at` in `bytes`.
pub open spec fn erases_display_at(bytes: Seq<u8>, at: int) -> bool {
    &&& 0 <= at
    &&& at + 4 <= bytes.len()
    &&& bytes[at] == 0x1b
    &&& bytes[at + 1] == 0x5b
    &&& bytes[at + 2] == 0x32
    &&& bytes[at + 3] == 0x4a
}

/// Whether the sequence that erases the display stands nowhere in `bytes`.
pub open spec fn spares_display(bytes: Seq<u8>) -> bool {
    forall|at: int| !erases_display_at(bytes, at)
}

/// Whether no command output among `events` holds the sequence that erases
/// the display.
pub open spec fn outputs_spare_display(events: Seq<RendererEvent>) -> bool {
    forall|i: int|
        0 <= i < events.len() ==> (#[trigger] events[i]
            matches RendererEvent::Message(UserInterfaceEvent::CommandOutput(output))
            ==> spares_display(encode_utf8(output@)))
}

/// The encoding of a character other than escape holds no escape byte.
proof fn lemma_scalar_without_escape(c: char)
    requires
        c != '\u{1b}',
    ensures
        forall|j: int|
            0 <= j < encode_scalar(c as u32).len() ==> #[trigger] encode_scalar(c as u32)[j]
                != 0x1b,
{
    let s = c as u32;
    assert(s <= 0x7F && s != 0x1b ==> (s & 0x7F) as u8 != 0x1bu8) by (bit_vector);
    assert(0xC0u8 | ((s >> 6) & 0x1F) as u8 != 0x1bu8) by (bit_vector);
    assert(0xE0u8 | ((s >> 12) & 0x0F) as u8 != 0x1bu8) by (bit_vector);
    assert(0xF0u8 | ((s >> 18) & 0x7) as u8 != 0x1bu8) by (bit_vector);
    assert(0x80u8 | (s & 0x3F) as u8 != 0x1bu8) by (bit_vector);
    assert(0x80u8 | ((s >> 6) & 0x3F) as u8 != 0x1bu8) by (bit_vector);
    assert(0x80u8 | ((s >> 12) & 0x3F) as u8 != 0x1bu8) by (bit_vector);
}

/// The encoding of a command line that was typed holds no escape byte.
proof fn lemma_plain_text_without_escape(text: Seq<char>)
    requires
        is_plain(text),
    ensures
        forall|j: int| 0 <= j < encode_utf8(text).len() ==> #[trigger] encode_utf8(text)[j] != 0x1b,
    decreases text.len(),
{
    if text.len() > 0 {
        let head = encode_scalar(text[0] as u32);
        let tail = text.drop_first();
        assert(!crate::editing::is_ignored_key(text[0]));
        assert forall|i: int| 0 <= i < tail.len() implies !crate::editing::is_ignored_key(
            #[trigger] tail[i],
        ) && !crate::editing::is_erase_key(tail[i]) by {
            assert(tail[i] == text[i + 1]);
        }
        lemma_scalar_without_escape(text[0]);
        lemma_plain_text_without_escape(tail);
        assert forall|j: int| 0 <= j < encode_utf8(text).len() implies #[trigger] encode_utf8(
            text,
        )[j] != 0x1b by {
            if j < head.len() {
                assert(encode_utf8(text)[j] == head[j]);
            } else {
                assert(encode_utf8(text)[j] == encode_utf8(tail)[j - head.len()]);
            }
        }
    }
}

/// Where the sequence that erases the display stands once `more` is written
/// behind `written`: where it stood in either, and nowhere across the seam,
/// if `more` starts with an escape byte or `written` ends in three bytes
/// that are none.
proof fn lemma_written_behind(written: Seq<u8>, more: Seq<u8>, at: int)
    requires
        more.len() > 0 && more[0] == 0x1b || {
            &&& written.len() >= 3
            &&& written[written.len() - 1] != 0x1b
            &&& written[written.len() - 2] != 0x1b
            &&& written[written.len() - 3] != 0x1b
        },
    ensures
        erases_display_at(written + more, at) <==> erases_display_at(written, at)
            || erases_display_at(more, at - written.len()),
{
    let all = written + more;
    if 0 <= at && at + 4 <= all.len() {
        if at + 4 <= written.len() {
            assert(all[at] == written[at]);
            assert(all[at + 1] == written[at + 1]);
            assert(all[at + 2] == written[at + 2]);
            assert(all[at + 3] == written[at + 3]);
        } else if at >= written.len() {
            assert(all[at] == more[at - written.len()]);
            assert(all[at + 1] == more[at + 1 - written.len()]);
            assert(all[at + 2] == more[at + 2 - written.len()]);
            assert(all[at + 3] == more[at + 3 - written.len()]);
        } else {
            assert(all[at] == written[at]);
            assert(all[written.len() as int] == more[0]);
        }
    }
}

/// The bytes of a line drawn anew: they start with an escape byte and hold
/// the sequence that erases the display nowhere.
proof fn lemma_command_steps_spare_display(command_text: Seq<char>)
    requires
        is_plain(command_text),
    ensures
        bytes_written(command_steps(command_text)).len() > 0,
        bytes_written(command_steps(command_text))[0] == 0x1b,
        spares_display(bytes_written(command_steps(command_text))),
{
    reveal_with_fuel(bytes_written, 3);
    let head = cursor_to_command() + erase_line();
    let text = encode_utf8(command_text);
    let frame = head + text + cursor_glyph();
    let steps = command_steps(command_text);
    assert(steps.drop_last().drop_last().len() == 0);
    assert(bytes_written(steps) == Seq::<u8>::empty() + frame + Seq::<u8>::empty());
    assert(bytes_written(steps) == frame);
    lemma_plain_text_without_escape(command_text);
    assert forall|at: int| !erases_display_at(frame, at) by {
        if 0 <= at && at + 4 <= frame.len() {
            if at < 10 {
                assert(frame[at] == head[at]);
                if at == 0 {
                    assert(frame[2] == head[2]);
                } else if at == 6 {
                    assert(frame[8] == head[8]);
                }
            } else if at < 10 + text.len() {
                assert(frame[at] == text[at - 10]);
            } else {
                assert(frame[at] == cursor_glyph()[at - 10 - text.len()]);
            }
        }
    }
}

/// The sequence that erases the display is written once. Whatever arrives
/// in whatever order, if no command output holds that sequence, then in all
/// that the renderer writes it stands at the very start and nowhere else.
pub proof fn lemma_display_is_erased_once(events: Seq<RendererEvent>)
    requires
        outputs_spare_display(events),
    ensures
        forall|at: int| erases_display_at(run_output(events), at) <==> at == 0,
        run_output(events).len() >= 10,
    decreases events.len(),
{
    if events.len() == 0 {
        reveal_with_fuel(bytes_written, 3);
        let start = erase_display() + cursor_to_command();
        let steps = startup_steps();
        assert(steps.drop_last().drop_last().len() == 0);
        assert(bytes_written(steps) == Seq::<u8>::empty() + start + Seq::<u8>::empty());
        assert(bytes_written(steps) == start);
        assert forall|at: int| erases_display_at(start, at) <==> at == 0 by {
            if at == 0 {
                assert(start[0] == 0x1b && start[1] == 0x5b && start[2] == 0x32 && start[3]
                    == 0x4a);
            } else if at == 4 {
                assert(start[6] == 0x31);
            } else if 0 < at && at + 4 <= start.len() {
                assert(start[at] != 0x1b);
            }
        }
        assert(run_output(events) == start);
    } else {
        let before = events.drop_last();
        assert forall|i: int| 0 <= i < before.len() implies (#[trigger] before[i]
            matches RendererEvent::Message(UserInterfaceEvent::CommandOutput(output))
            ==> spares_display(encode_utf8(output@))) by {
            assert(before[i] == events[i]);
        }
        lemma_display_is_erased_once(before);
        let written = run_output(before);
        let state = state_after(before);
        let more = bytes_written(steps_on(state, events.last()));
        assert(events[events.len() - 1] == events.last());
        assert(run_output(events) == written + more);
        if state.stopped {
            assert(written + more == written);
        } else {
            match events.last() {
                RendererEvent::Message(UserInterfaceEvent::KeyPress(key)) => {
                    let keys = keys_shown(before).push(key);
                    lemma_copy_follows_keys(before);
                    assert(keys.drop_last() == keys_shown(before));
                    assert(is_plain(Seq::<char>::empty()));
                    lemma_typed_is_plain(Seq::empty(), keys);
                    lemma_command_steps_spare_display(edited(state.command_text, key));
                    assert forall|at: int| erases_display_at(written + more, at) <==> at == 0 by {
                        lemma_written_behind(written, more, at);
                        assert(!erases_display_at(more, at - written.len()));
                    }
                },
                RendererEvent::Message(UserInterfaceEvent::CommandOutput(output)) => {
                    reveal_with_fuel(bytes_written, 7);
                    let head = cursor_to_output() + erase_below();
                    let text = encode_utf8(output@);
                    let steps = output_steps(output@);
                    assert(steps.drop_last().drop_last().drop_last().drop_last().drop_last()
                        .drop_last().len() == 0);
                    assert(more == Seq::<u8>::empty() + head + Seq::<u8>::empty() + Seq::<
                        u8,
                    >::empty() + text + Seq::<u8>::empty() + Seq::<u8>::empty());
                    assert(more == head + text);
                    assert(written + more == (written + head) + text);
                    assert forall|at: int| !erases_display_at(head, at) by {
                        if at == 0 {
                            assert(head[3] == 0x3b);
                        } else if at == 6 {
                            assert(head[8] == 0x30);
                        } else if 0 < at && at + 4 <= head.len() {
                            assert(head[at] != 0x1b);
                        }
                    }
                    assert(head[0] == 0x1b);
                    let drawn = written + head;
                    assert(drawn[drawn.len() - 1] == head[9]);
                    assert(drawn[drawn.len() - 2] == head[8]);
                    assert(drawn[drawn.len() - 3] == head[7]);
                    assert forall|at: int| erases_display_at(drawn + text, at) <==> at == 0 by {
                        lemma_written_behind(written, head, at);
                        lemma_written_behind(drawn, text, at);
                        assert(!erases_display_at(head, at - written.len()));
                        assert(!erases_display_at(text, at - drawn.len()));
                    }
                },
                _ => {
                    assert(written + more == written);
                },
            }
        }
    }
}

} // verus!
