//! The schedule store contract.  Loading must hand back a usable value
//! even when nothing is stored; saving and deleting are fire-and-forget.

use vstd::prelude::*;
use crate::models::schedule::Schedule;

verus! {

/// What any schedule store offers the application.
pub trait ScheduleLoader {
    fn save(&mut self, schedule: Schedule);

    /// Loads the schedule stored under `name`, or a usable
    /// default-initialized one if there is none.
    fn load(&mut self, name: &str) -> (s: Schedule)
        ensures
            s.wf(),
    ;

    fn delete(&mut self, name: &str);
}

/// The file-backed store.  Its on-disk format is not part of the core and
/// remains the storage collaborator's concern: until one is wired in,
/// loading hands back the empty week and storing keeps nothing.
#[derive(Debug)]
pub struct JsonScheduleLoader {
    pub base_path: String,
}

impl JsonScheduleLoader {
    pub fn new(base_path: &str) -> (l: JsonScheduleLoader)
        ensures
            l.base_path@ == base_path@,
    {
        JsonScheduleLoader { base_path: base_path.to_owned() }
    }
}

impl ScheduleLoader for JsonScheduleLoader {
    fn save(&mut self, schedule: Schedule) {
        let _ = schedule;
    }

    fn load(&mut self, name: &str) -> (s: Schedule) {
        let _ = name;
        Schedule::new()
    }

    fn delete(&mut self, name: &str) {
        let _ = name;
    }
}

} // verus!
