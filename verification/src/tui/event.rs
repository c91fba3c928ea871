//! Terminal events.

use vstd::prelude::*;

verus! {

/// Outcome of feeding an event to the application state machine.
#[derive(Debug, Clone, Copy, PartialEq, Eq, Structural)]
pub enum EventResult {
    Continue,
    Quit,
}

/// The key that was pressed.
#[derive(Debug, Clone, Copy, PartialEq, Eq, Structural)]
pub enum KeyCode {
    Char(char),
    Enter,
    Esc,
    Tab,
    BackTab,
    Backspace,
    Delete,
    Left,
    Right,
    Up,
    Down,
    Home,
    End,
    /// A key without a meaning here.
    Other,
}

/// A key press, with the modifiers held.
#[derive(Debug, Clone, Copy, PartialEq, Eq, Structural)]
pub struct KeyEvent {
    pub code: KeyCode,
    pub control: bool,
    pub alt: bool,
}

impl KeyEvent {
    /// A key press without modifiers.
    #[must_use]
    pub fn plain(code: KeyCode) -> (r: Self)
        ensures
            r == (KeyEvent { code, control: false, alt: false }),
    {
        KeyEvent { code, control: false, alt: false }
    }
}

/// A polled terminal event. `Tick` fires when no input came within the poll
/// interval and lets the application do time-based work.
#[derive(Debug, Clone, Copy, PartialEq, Eq, Structural)]
pub enum TuiEvent {
    Key(KeyEvent),
    Tick,
}

} // verus!
