//! A week view assembled from the day selector and one conference list
//! per day.  Key events reach the day selector and then the list of the
//! day it rests on.

use vstd::prelude::*;
use crate::components::conference_list::ConferenceList;
use crate::components::day_selector::DaySelector;
use crate::event::Key;
use crate::models;

verus! {

/// The week view: a day cursor and the seven day lists.
#[derive(Debug)]
pub struct Schedule {
    pub day_selector: DaySelector,
    pub days: Vec<ConferenceList>,
}

impl Schedule {
    pub open spec fn wf(&self) -> bool {
        &&& self.day_selector.wf()
        &&& self.days@.len() == 7
        &&& forall|d: int| 0 <= d < 7 ==> (#[trigger] self.days@[d]).wf()
    }

    pub fn new(schedule: models::Schedule) -> (s: Schedule)
        requires
            schedule.wf(),
            forall|d: int|
                0 <= d < 7 ==> (#[trigger] schedule.0@[d])@.len() < 0x10000000000000000,
        ensures
            s.wf(),
            s.day_selector.selected_day == 0,
            forall|d: int|
                0 <= d < 7 ==> (#[trigger] s.days@[d]).conferences@ == schedule.0@[d]@,
    {
        let mut buckets = schedule.0;
        let mut days: Vec<ConferenceList> = Vec::new();
        proof {
            assert(buckets@ =~= schedule.0@.skip(0));
        }
        let mut d: usize = 0;
        while d < 7
            invariant
                0 <= d <= 7,
                buckets@ == schedule.0@.skip(d as int),
                schedule.0@.len() == 7,
                forall|k: int|
                    0 <= k < 7 ==> (#[trigger] schedule.0@[k])@.len() < 0x10000000000000000,
                days@.len() == d,
                forall|k: int|
                    0 <= k < d ==> (#[trigger] days@[k]).wf() && days@[k].conferences@
                        == schedule.0@[k]@,
            decreases 7 - d,
        {
            proof {
                assert(schedule.0@.skip(d as int)[0] == schedule.0@[d as int]);
                assert(schedule.0@.skip(d as int).remove(0) =~= schedule.0@.skip(d + 1));
            }
            let bucket = buckets.remove(0);
            days.push(ConferenceList::new(bucket));
            d += 1;
        }
        Schedule { day_selector: DaySelector::new(), days }
    }

    /// The day the selector rests on after `key`: left and right move
    /// through the week, anything else stays put.
    pub open spec fn day_after(&self, key: Key) -> int {
        if key == Key::Left {
            if self.day_selector.selected_day == 0 {
                6
            } else {
                self.day_selector.selected_day - 1
            }
        } else if key == Key::Right {
            if self.day_selector.selected_day == 6 {
                0
            } else {
                self.day_selector.selected_day + 1
            }
        } else {
            self.day_selector.selected_day as int
        }
    }

    /// A key press reaches the day selector, then the list of the day the
    /// selector now rests on; Enter may hand back that day's selected
    /// link to open.
    pub fn handle_key_event(&mut self, key: Key) -> (r: Option<String>)
        requires
            old(self).wf(),
        ensures
            final(self).wf(),
            final(self).day_selector.selected_day == old(self).day_after(key),
            forall|d: int|
                0 <= d < 7 && d != old(self).day_after(key) ==> (#[trigger] final(self).days@[d]) == old(self).days@[d],
            forall|d: int|
                0 <= d < 7 ==> (#[trigger] final(self).days@[d]).conferences@ == old(self).days@[d].conferences@,
            key == Key::Enter ==> ({
                let list = old(self).days@[old(self).day_after(key)];
                if list.conferences@.len() > 0 {
                    r matches Some(link) && link@ == list.conferences@[list.selector.index as int].link@
                } else {
                    r is None
                }
            }),
    {
        self.day_selector.handle_key_event(key);
        let day = self.day_selector.selected_day as usize;
        self.days[day].handle_key_event(key)
    }
}

} // verus!
