//! A scrollable list of one day's conferences.  Enter asks for the
//! selected conference's link to be opened; opening it in a browser is
//! the caller's outside work.

use vstd::prelude::*;
use crate::components::selector::{Selector, cyclic_next, cyclic_prev};
use crate::event::Key;
use crate::models::conference::Conference;

verus! {

/// One day's conferences with a cyclic cursor over them.
#[derive(Debug)]
pub struct ConferenceList {
    pub conferences: Vec<Conference>,
    pub selector: Selector,
}

impl ConferenceList {
    pub open spec fn wf(&self) -> bool {
        self.selector.length == self.conferences@.len() && self.selector.wf()
    }

    pub fn new(conferences: Vec<Conference>) -> (l: ConferenceList)
        requires
            conferences@.len() < 0x10000000000000000,
        ensures
            l.wf(),
            l.conferences@ == conferences@,
            l.selector.index == 0,
    {
        ConferenceList { selector: Selector::new(conferences.len() as u64), conferences }
    }

    /// Up and down move the cursor; Enter hands back the link of the
    /// selected conference so the caller can open it.
    pub fn handle_key_event(&mut self, key: Key) -> (r: Option<String>)
        requires
            old(self).wf(),
        ensures
            final(self).wf(),
            final(self).conferences@ == old(self).conferences@,
            key == Key::Up ==> final(self).selector.index == cyclic_prev(
                old(self).selector.index as int,
                old(self).conferences@.len() as int,
            ) && r is None,
            key == Key::Down ==> final(self).selector.index == cyclic_next(
                old(self).selector.index as int,
                old(self).conferences@.len() as int,
            ) && r is None,
            key == Key::Enter && old(self).conferences@.len() > 0 ==> (r matches Some(link)
                && link@ == old(self).conferences@[old(self).selector.index as int].link@),
            key == Key::Enter && old(self).conferences@.len() == 0 ==> r is None,
            !(key == Key::Up || key == Key::Down || key == Key::Enter) ==> *final(self)
                == *old(self) && r is None,
    {
        match key {
            Key::Up => {
                self.selector.prev();
                None
            },
            Key::Down => {
                self.selector.next();
                None
            },
            Key::Enter => {
                if (self.selector.index as usize) < self.conferences.len() {
                    Some(self.conferences[self.selector.index as usize].link.clone())
                } else {
                    None
                }
            },
            _ => None,
        }
    }
}

} // verus!
