//! A cursor over the seven days of the week, wrapping at both ends.

use vstd::prelude::*;
use crate::action::Action;
use crate::event::Key;

verus! {

/// The selected day, 0 = Monday .. 6 = Sunday.
#[derive(Debug)]
pub struct DaySelector {
    pub selected_day: u8,
}

impl DaySelector {
    pub open spec fn wf(&self) -> bool {
        self.selected_day < 7
    }

    pub fn new() -> (s: DaySelector)
        ensures
            s.wf(),
            s.selected_day == 0,
    {
        DaySelector { selected_day: 0 }
    }

    fn prev(&mut self)
        requires
            old(self).wf(),
        ensures
            final(self).wf(),
            final(self).selected_day == if old(self).selected_day == 0 {
                6int
            } else {
                old(self).selected_day - 1
            },
    {
        proof {
            vstd::arithmetic::div_mod::lemma_mod_add_multiples_vanish(
                old(self).selected_day - 1,
                7,
            );
            if old(self).selected_day > 0 {
                vstd::arithmetic::div_mod::lemma_small_mod((old(self).selected_day - 1) as nat, 7);
            } else {
                vstd::arithmetic::div_mod::lemma_small_mod(6, 7);
            }
        }
        self.selected_day = (self.selected_day + 6) % 7;
    }

    fn next(&mut self)
        requires
            old(self).wf(),
        ensures
            final(self).wf(),
            final(self).selected_day == if old(self).selected_day == 6 {
                0int
            } else {
                old(self).selected_day + 1
            },
    {
        proof {
            if old(self).selected_day == 6 {
                vstd::arithmetic::div_mod::lemma_mod_self_0(7);
            } else {
                vstd::arithmetic::div_mod::lemma_small_mod((old(self).selected_day + 1) as nat, 7);
            }
        }
        self.selected_day = (self.selected_day + 1) % 7;
    }

    /// Left and right arrows step through the days, wrapping around.
    pub fn handle_key_event(&mut self, key: Key) -> (r: Option<Action>)
        requires
            old(self).wf(),
        ensures
            final(self).wf(),
            r is None,
            key == Key::Left ==> final(self).selected_day == if old(self).selected_day == 0 {
                6int
            } else {
                old(self).selected_day - 1
            },
            key == Key::Right ==> final(self).selected_day == if old(self).selected_day == 6 {
                0int
            } else {
                old(self).selected_day + 1
            },
            !(key == Key::Left || key == Key::Right) ==> *final(self) == *old(self),
    {
        match key {
            Key::Left => self.prev(),
            Key::Right => self.next(),
            _ => {},
        }
        None
    }
}

} // verus!
