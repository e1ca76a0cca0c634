//! The settings view: a cyclic cursor over the entries shown.

use vstd::prelude::*;
use crate::components::selector::{Selector, cyclic_next, cyclic_prev};
use crate::event::Key;
use crate::models;

verus! {

/// The settings view and its cursor.
#[derive(Debug)]
pub struct Settings {
    pub selector: Selector,
    pub settings: models::Settings,
}

impl Settings {
    pub open spec fn wf(&self) -> bool {
        self.selector.length == 3 && self.selector.wf()
    }

    pub fn new(settings: models::Settings) -> (s: Settings)
        ensures
            s.wf(),
            s.selector.index == 0,
            s.settings == settings,
    {
        Settings { selector: Selector::new(3), settings }
    }

    /// Up and down move the cursor over the entries, wrapping around.
    pub fn handle_key_event(&mut self, key: Key)
        requires
            old(self).wf(),
        ensures
            final(self).wf(),
            final(self).settings == old(self).settings,
            key == Key::Up ==> final(self).selector.index == cyclic_prev(
                old(self).selector.index as int,
                3,
            ),
            key == Key::Down ==> final(self).selector.index == cyclic_next(
                old(self).selector.index as int,
                3,
            ),
            !(key == Key::Up || key == Key::Down) ==> *final(self) == *old(self),
    {
        match key {
            Key::Up => self.selector.prev(),
            Key::Down => self.selector.next(),
            _ => {},
        }
    }
}

} // verus!
