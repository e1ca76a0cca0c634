//! A cursor over a ragged two-dimensional grid: one length per row,
//! horizontal movement cyclic within the current row, vertical movement
//! cyclic over the rows with the column clamped into the row that was
//! reached.

use vstd::prelude::*;
use crate::components::selector::{cyclic_next, cyclic_prev};

verus! {

/// Where the column lands after a vertical move into a row of length
/// `length`: columns past the end are clamped to the last entry, and an
/// empty row pins the column to zero.
pub open spec fn clamp_col(col: int, length: int) -> int {
    if col >= length {
        if length == 0 {
            0
        } else {
            length - 1
        }
    } else {
        col
    }
}

/// Navigation state over a ragged grid.  `row_lengths` mirrors the shape of
/// the collection being navigated; the owner must rebuild the selector when
/// that shape changes.
///
/// Horizontal movement wraps around inside the current row; vertical
/// movement wraps around over the rows and then clamps the column.  The
/// asymmetry is deliberate: it keeps the cursor from landing past the end
/// of a shorter row reached by a vertical move.
#[derive(Debug)]
pub struct Selector2D {
    pub row_lengths: Vec<usize>,
    pub selected_row: usize,
    pub selected_col: usize,
}

impl Selector2D {
    /// The cursor points at a real row, and inside it at a real entry
    /// (or at column zero when the row is empty).
    pub open spec fn wf(&self) -> bool {
        &&& self.row_lengths@.len() > 0 ==> self.selected_row < self.row_lengths@.len()
        &&& self.row_lengths@.len() == 0 ==> self.selected_row == 0 && self.selected_col == 0
        &&& self.row_lengths@.len() > 0 ==> {
            let l = self.row_lengths@[self.selected_row as int];
            if l > 0 {
                self.selected_col < l
            } else {
                self.selected_col == 0
            }
        }
    }

    pub fn new(row_lengths: Vec<usize>) -> (s: Selector2D)
        ensures
            s.wf(),
            s.row_lengths@ == row_lengths@,
            s.selected_row == 0,
            s.selected_col == 0,
    {
        Self { row_lengths, selected_row: 0, selected_col: 0 }
    }

    pub fn move_left(&mut self)
        requires
            old(self).wf(),
            old(self).row_lengths@.len() > 0,
        ensures
            final(self).wf(),
            final(self).row_lengths@ == old(self).row_lengths@,
            final(self).selected_row == old(self).selected_row,
            final(self).selected_col == cyclic_prev(
                old(self).selected_col as int,
                old(self).row_lengths@[old(self).selected_row as int] as int,
            ),
    {
        let length = self.row_lengths[self.selected_row];
        if length > 1 {
            self.selected_col = match self.selected_col {
                0 => length - 1,
                _ => self.selected_col - 1,
            };
        }
    }

    pub fn move_right(&mut self)
        requires
            old(self).wf(),
            old(self).row_lengths@.len() > 0,
        ensures
            final(self).wf(),
            final(self).row_lengths@ == old(self).row_lengths@,
            final(self).selected_row == old(self).selected_row,
            final(self).selected_col == cyclic_next(
                old(self).selected_col as int,
                old(self).row_lengths@[old(self).selected_row as int] as int,
            ),
    {
        let length = self.row_lengths[self.selected_row];
        if length > 1 {
            proof {
                if old(self).selected_col + 1 == length {
                    vstd::arithmetic::div_mod::lemma_mod_self_0(length as int);
                } else {
                    vstd::arithmetic::div_mod::lemma_small_mod(
                        (old(self).selected_col + 1) as nat,
                        length as nat,
                    );
                }
            }
            self.selected_col = (self.selected_col + 1) % length;
        }
    }

    pub fn move_up(&mut self)
        requires
            old(self).wf(),
        ensures
            final(self).wf(),
            final(self).row_lengths@ == old(self).row_lengths@,
            final(self).selected_row == cyclic_prev(
                old(self).selected_row as int,
                old(self).row_lengths@.len() as int,
            ),
            final(self).selected_col == clamp_col(
                old(self).selected_col as int,
                final(self).row_lengths@[final(self).selected_row as int] as int,
            ),
    {
        let length = self.row_lengths.len();
        if length > 1 {
            self.selected_row = match self.selected_row {
                0 => length - 1,
                _ => self.selected_row - 1,
            };
            if self.selected_col >= self.row_lengths[self.selected_row] {
                self.selected_col = self.row_lengths[self.selected_row].saturating_sub(1);
            }
        }
    }

    pub fn move_down(&mut self)
        requires
            old(self).wf(),
        ensures
            final(self).wf(),
            final(self).row_lengths@ == old(self).row_lengths@,
            final(self).selected_row == cyclic_next(
                old(self).selected_row as int,
                old(self).row_lengths@.len() as int,
            ),
            final(self).selected_col == clamp_col(
                old(self).selected_col as int,
                final(self).row_lengths@[final(self).selected_row as int] as int,
            ),
    {
        let length = self.row_lengths.len();
        if length > 1 {
            proof {
                if old(self).selected_row + 1 == length {
                    vstd::arithmetic::div_mod::lemma_mod_self_0(length as int);
                } else {
                    vstd::arithmetic::div_mod::lemma_small_mod(
                        (old(self).selected_row + 1) as nat,
                        length as nat,
                    );
                }
            }
            self.selected_row = (self.selected_row + 1) % length;
            if self.selected_col >= self.row_lengths[self.selected_row] {
                self.selected_col = self.row_lengths[self.selected_row].saturating_sub(1);
            }
        }
    }

    pub fn selected(&self) -> (r: (usize, usize))
        ensures
            r.0 == self.selected_row,
            r.1 == self.selected_col,
    {
        (self.selected_row, self.selected_col)
    }
}

} // verus!
