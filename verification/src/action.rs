//! The closed sets of cross-cutting signals: the application modes and the
//! actions that flow through the dispatch queue.

use vstd::prelude::*;

verus! {

/// Which page owns the keyboard, and so which key-binding table applies.
#[derive(Clone, Copy, Debug, PartialEq, Eq, Hash, Structural)]
pub enum Mode {
    Schedule,
    Settings,
    Edit,
}

impl Default for Mode {
    fn default() -> (r: Mode)
        ensures
            r == Mode::Schedule,
    {
        Mode::Schedule
    }
}

/// A queued signal.  Components may emit one from key handling; the
/// dispatch loop applies the global ones and forwards every drained action
/// to every live component.
#[derive(Debug, PartialEq, Eq)]
pub enum Action {
    Tick,
    Render,
    Resize(u16, u16),
    Suspend,
    Resume,
    Quit,
    ClearScreen,
    Error(String),
    Help,
    ChangeMode(Mode),
}

impl Clone for Action {
    fn clone(&self) -> (r: Self)
        ensures
            r == *self,
    {
        match self {
            Action::Tick => Action::Tick,
            Action::Render => Action::Render,
            Action::Resize(w, h) => Action::Resize(*w, *h),
            Action::Suspend => Action::Suspend,
            Action::Resume => Action::Resume,
            Action::Quit => Action::Quit,
            Action::ClearScreen => Action::ClearScreen,
            Action::Error(message) => Action::Error(message.clone()),
            Action::Help => Action::Help,
            Action::ChangeMode(mode) => Action::ChangeMode(*mode),
        }
    }
}

} // verus!
