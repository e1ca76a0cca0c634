//! A cyclic cursor over `0..length`.

use vstd::prelude::*;

verus! {

/// Where a cyclic step forward from `index` lands in `0..length`.
///
/// Lists of zero or one entries leave nothing to move to, so the cursor
/// stays put on them.
pub open spec fn cyclic_next(index: int, length: int) -> int {
    if length > 1 {
        if index + 1 == length {
            0
        } else {
            index + 1
        }
    } else {
        index
    }
}

/// Where a cyclic step backward from `index` lands in `0..length`.
pub open spec fn cyclic_prev(index: int, length: int) -> int {
    if length > 1 {
        if index == 0 {
            length - 1
        } else {
            index - 1
        }
    } else {
        index
    }
}

/// A step forward followed by a step backward restores the cursor, and on
/// lists of length at most one both steps are no-ops.
pub proof fn lemma_cyclic_wraparound(index: int, length: int)
    requires
        0 <= index,
        length > 1 ==> index < length,
    ensures
        length > 1 ==> cyclic_prev(cyclic_next(index, length), length) == index,
        length > 1 ==> cyclic_next(cyclic_prev(index, length), length) == index,
        length <= 1 ==> cyclic_next(index, length) == index && cyclic_prev(index, length)
            == index,
{
}

/// A cyclic cursor over a list of `length` entries, kept inside the list
/// whenever the list is non-empty.  The cursor does not watch the list it
/// indexes: whoever owns the list must rebuild the selector when the list
/// changes size.
#[derive(Debug)]
pub struct Selector {
    pub length: u64,
    pub index: u64,
}

impl Selector {
    /// The cursor is in bounds whenever there is anything to point at.
    pub open spec fn wf(&self) -> bool {
        self.length > 0 ==> self.index < self.length
    }

    pub fn new(length: u64) -> (s: Selector)
        ensures
            s.wf(),
            s.length == length,
            s.index == 0,
    {
        Self { length, index: 0 }
    }

    pub fn prev(&mut self)
        requires
            old(self).wf(),
        ensures
            final(self).wf(),
            final(self).length == old(self).length,
            final(self).index == cyclic_prev(old(self).index as int, old(self).length as int),
    {
        if self.length > 1 {
            self.index = match self.index {
                0 => self.length - 1,
                _ => self.index - 1,
            };
        }
    }

    pub fn next(&mut self)
        requires
            old(self).wf(),
        ensures
            final(self).wf(),
            final(self).length == old(self).length,
            final(self).index == cyclic_next(old(self).index as int, old(self).length as int),
    {
        if self.length > 1 {
            proof {
                if old(self).index + 1 == old(self).length {
                    vstd::arithmetic::div_mod::lemma_mod_self_0(old(self).length as int);
                } else {
                    vstd::arithmetic::div_mod::lemma_small_mod(
                        (old(self).index + 1) as nat,
                        old(self).length as nat,
                    );
                }
            }
            self.index = (self.index + 1) % self.length;
        }
    }
}

} // verus!
