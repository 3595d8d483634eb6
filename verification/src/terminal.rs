//! The modes of a terminal: the one it was found in, and the raw one that
//! the shell needs to see every keystroke.

use nix::sys::termios::Termios;
use vstd::prelude::*;

verus! {

/// The configuration of a terminal as `nix` holds it. The shell takes it
/// from the terminal and hands it back, and never looks inside.
#[verifier::external_type_specification]
#[verifier::external_body]
pub struct ExTermios(Termios);

/// The two configurations of a terminal.
#[derive(Debug, Clone, Copy, PartialEq, Eq)]
pub enum TerminalMode {
    /// As it was found: lines are cooked, keys are echoed, and a line feed
    /// starts a new line.
    Original,
    /// Every byte is handed on as it comes, and nothing is echoed or
    /// rewritten.
    Raw,
}

/// The raw configuration that `cfmakeraw` of `nix` makes of `original`.
pub uninterp spec fn raw_mode_of(original: Termios) -> Termios;

/// Makes the raw configuration of `original`: a copy of it that `cfmakeraw`
/// of `nix` has changed. `cfmakeraw` reads nothing but the configuration it
/// is handed, so the result is what it makes of `original`; which flags that
/// sets and clears is the platform's matter and is not claimed.
#[verifier::external_body]
fn raw_config(original: &Termios) -> (raw: Termios)
    ensures
        raw == raw_mode_of(*original),
{
    let mut raw = original.clone();
    nix::sys::termios::cfmakeraw(&mut raw);
    raw
}

/// The configurations of one terminal: the one it was found in and the raw
/// one made from it.
#[derive(Debug)]
pub struct TerminalModeState {
    original: Termios,
    raw: Termios,
}

impl TerminalModeState {
    /// The configuration that the terminal was found in.
    pub closed spec fn original(&self) -> Termios {
        self.original
    }

    /// The raw configuration.
    pub closed spec fn raw(&self) -> Termios {
        self.raw
    }

    /// Keeps `original`, the configuration that the terminal was found in,
    /// and makes the raw one from it.
    pub fn capture(original: Termios) -> (modes: TerminalModeState)
        ensures
            modes.original() == original,
            modes.raw() == raw_mode_of(original),
    {
        let raw = raw_config(&original);
        TerminalModeState { original, raw }
    }

    /// The configuration to set for `mode`.
    pub fn config(&self, mode: TerminalMode) -> (config: &Termios)
        ensures
            *config == match mode {
                TerminalMode::Original => self.original(),
                TerminalMode::Raw => self.raw(),
            },
    {
        match mode {
            TerminalMode::Original => &self.original,
            TerminalMode::Raw => &self.raw,
        }
    }
}

} // verus!
