//! A cyclic cursor over `0..length` that may start anywhere in the list.

use vstd::prelude::*;
use crate::components::selector::{cyclic_next, cyclic_prev};

verus! {

/// A cyclic cursor over a list of `length` entries.  Unlike
/// [`crate::components::selector::Selector`] it is built pointing at a
/// caller-chosen entry, so an empty list admits no cursor at all:
/// construction demands `start_from < length`.
#[derive(Debug)]
pub struct Selector {
    pub length: usize,
    pub index: usize,
}

impl Selector {
    /// The cursor always stays inside the (necessarily non-empty) list.
    pub open spec fn wf(&self) -> bool {
        self.index < self.length
    }

    pub fn new(length: usize, start_from: usize) -> (s: Selector)
        requires
            start_from < length,
        ensures
            s.wf(),
            s.length == length,
            s.index == start_from,
    {
        Self { length, index: start_from }
    }

    pub fn prev(&mut self)
        requires
            old(self).wf(),
        ensures
            final(self).wf(),
            final(self).length == old(self).length,
            final(self).index == cyclic_prev(old(self).index as int, old(self).length as int),
    {
        if self.length > 1 {
            self.index = match self.index {
                0 => self.length - 1,
                _ => self.index - 1,
            };
        }
    }

    pub fn next(&mut self)
        requires
            old(self).wf(),
        ensures
            final(self).wf(),
            final(self).length == old(self).length,
            final(self).index == cyclic_next(old(self).index as int, old(self).length as int),
    {
        if self.length > 1 {
            proof {
                if old(self).index + 1 == old(self).length {
                    vstd::arithmetic::div_mod::lemma_mod_self_0(old(self).length as int);
                } else {
                    vstd::arithmetic::div_mod::lemma_small_mod(
                        (old(self).index + 1) as nat,
                        old(self).length as nat,
                    );
                }
            }
            self.index = (self.index + 1) % self.length;
        }
    }
}

} // verus!
