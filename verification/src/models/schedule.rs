//! The stored shape of a weekly schedule: seven ordered lists of
//! conferences, one per day, Monday first.

use vstd::prelude::*;
use crate::models::conference::Conference;

verus! {

/// Seven day-buckets of conferences.
#[derive(Debug)]
pub struct Schedule(pub Vec<Vec<Conference>>);

impl Schedule {
    /// Always exactly seven days.
    pub open spec fn wf(&self) -> bool {
        self.0@.len() == 7
    }

    pub fn new() -> (s: Schedule)
        ensures
            s.wf(),
            forall|d: int| 0 <= d < 7 ==> #[trigger] s.0@[d]@.len() == 0,
    {
        let mut days: Vec<Vec<Conference>> = Vec::new();
        let mut i: usize = 0;
        while i < 7
            invariant
                0 <= i <= 7,
                days@.len() == i,
                forall|d: int| 0 <= d < i ==> #[trigger] days@[d]@.len() == 0,
            decreases 7 - i,
        {
            days.push(Vec::new());
            i += 1;
        }
        Schedule(days)
    }

    /// The seven day lists, Monday first.
    pub fn as_array(&self) -> (r: &Vec<Vec<Conference>>)
        ensures
            r@ == self.0@,
    {
        &self.0
    }
}

impl Default for Schedule {
    fn default() -> (r: Schedule)
        ensures
            r.wf(),
            forall|d: int| 0 <= d < 7 ==> #[trigger] r.0@[d]@.len() == 0,
    {
        Schedule::new()
    }
}

} // verus!
