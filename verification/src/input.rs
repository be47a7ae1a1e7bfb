//! What one poll of the keyboard can yield, and which of it asks to quit.

use vstd::prelude::*;

verus! {

/// The key that ends the animation.
pub const QUIT_KEY: char = 'q';

/// How long one poll waits for input before it reports a timeout, in
/// milliseconds.
pub const POLL_TIMEOUT_MS: u64 = 50;

/// How a key event came about.
#[derive(Clone, Copy, Debug, PartialEq, Eq, Structural)]
pub enum KeyEventKind {
    Press,
    Repeat,
    Release,
}

/// The key of a key event: a character key, or any other key.
#[derive(Clone, Copy, Debug, PartialEq, Eq, Structural)]
pub enum KeyCode {
    Char(char),
    Other,
}

/// The outcome of one poll of the terminal.
#[derive(Clone, Copy, Debug, PartialEq, Eq, Structural)]
pub enum InputEvent {
    /// Nothing arrived before the poll timed out.
    Timeout,
    /// A key event arrived.
    Key { kind: KeyEventKind, code: KeyCode },
    /// Something other than a key event arrived (mouse, resize, focus, paste).
    Other,
}

/// The one event that asks to quit: a press of `QUIT_KEY`.
pub open spec fn is_quit_event(event: InputEvent) -> bool {
    event == (InputEvent::Key { kind: KeyEventKind::Press, code: KeyCode::Char(QUIT_KEY) })
}

/// Decides whether the outcome of a poll ends the animation.
pub fn handle_events(event: InputEvent) -> (quit: bool)
    ensures
        quit == is_quit_event(event),
{
    match event {
        InputEvent::Key { kind: KeyEventKind::Press, code: KeyCode::Char(key) } => key == QUIT_KEY,
        _ => false,
    }
}

} // verus!
