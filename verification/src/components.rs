//! Stand-alone schedule browsing components: cyclic selectors and the
//! day/conference list widgets built from them.

pub mod conference_list;
pub mod day_selector;
pub mod schedule;
pub mod selector;
pub mod settings;
