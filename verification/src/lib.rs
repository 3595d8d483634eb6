//! The decision core of a shell that runs the command line anew on every
//! keystroke.
//!
//! Four workers make up the shell. The dispatcher turns keystrokes into
//! commands, the exit supervisor waits for the commands to end, the output
//! relay hands on what they print, and the renderer draws the screen: line 1
//! shows the command as it is typed, everything below shows its output. The
//! workers talk through mailboxes, one for each.
//!
//! Nothing in this library reads, writes, spawns, kills or waits. Each worker
//! is a value that says what it waits for, is handed what happened, and
//! answers with what is to be done. The program around the library does
//! those things; the library decides, and what it decides is proved.

pub mod command_exit;
pub mod command_output;
pub mod decoding;
pub mod editing;
pub mod error;
pub mod events;
pub mod session;
pub mod terminal;
pub mod user_input;
pub mod user_interface;
