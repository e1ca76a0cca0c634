//! The input events the core reacts to, as plain values.  The terminal
//! collaborator translates its own key and event types into these before
//! handing them in.

use vstd::prelude::*;

verus! {

/// One key press, reduced to what the logic reads of it.
#[derive(Clone, Copy, Debug, PartialEq, Eq, Hash, Structural)]
pub enum Key {
    Up,
    Down,
    Left,
    Right,
    Enter,
    Esc,
    Backspace,
    Char(char),
    Other,
}

/// One event from the input source: a system-level signal, a timer, or a
/// key press.
#[derive(Clone, Copy, Debug, PartialEq, Eq, Structural)]
pub enum Event {
    Quit,
    Tick,
    Render,
    Resize(u16, u16),
    Key(Key),
    Other,
}

} // verus!
