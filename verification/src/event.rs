//! Input events as plain values.  The terminal back-end translates its own
//! key type into `Key` before anything here sees it; the polling loop that
//! produces `Event`s lives outside the library.

use vstd::prelude::*;

verus! {

/// One key press, already decoded from the terminal.
#[derive(Copy, Clone, PartialEq, Eq, Structural, Debug, Hash)]
pub enum Key {
    Enter,
    Tab,
    Backspace,
    Esc,
    Left,
    Right,
    Up,
    Down,
    Char(char),
    Ctrl(char),
    Alt(char),
    Unknown,
}

/// What one iteration of the input loop delivered.
pub enum Event<I> {
    Input(I),
    Tick,
}

/// Settings of the input loop: the key that ends the session and the tick
/// period in milliseconds.
#[derive(Copy, Clone, Debug)]
pub struct EventConfig {
    pub exit_key: Key,
    pub tick_rate_ms: u64,
}

impl Default for EventConfig {
    fn default() -> (r: EventConfig)
        ensures
            r.exit_key == Key::Ctrl('c'),
            r.tick_rate_ms == 250,
    {
        EventConfig { exit_key: Key::Ctrl('c'), tick_rate_ms: 250 }
    }
}

} // verus!
