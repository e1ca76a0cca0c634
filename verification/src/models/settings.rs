//! Session-scoped user settings.

use vstd::prelude::*;

verus! {

/// Whether calls may open on their own, and how many minutes early.
#[derive(Clone, Copy, Debug, PartialEq, Eq, Structural)]
pub struct Settings {
    pub autostart: bool,
    pub early_join_minutes: u16,
}

impl Default for Settings {
    fn default() -> (r: Settings)
        ensures
            !r.autostart,
            r.early_join_minutes == 0,
    {
        Settings { autostart: false, early_join_minutes: 0 }
    }
}

} // verus!
