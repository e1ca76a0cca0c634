//! The settings store contract, the same shape as the schedule's.

use vstd::prelude::*;
use crate::models::settings::Settings;

verus! {

/// What any settings store offers the application.
pub trait SettingsLoader {
    /// Loads the stored settings, or a usable default-initialized value
    /// if there are none.
    fn load(&mut self) -> Settings;

    fn save(&mut self, settings: Settings);
}

/// The file-backed store; see [`crate::persistence::schedule::JsonScheduleLoader`]
/// for why it hands back defaults.
#[derive(Debug)]
pub struct JsonSettingsLoader {
    pub base_path: String,
}

impl JsonSettingsLoader {
    pub fn new(base_path: &str) -> (l: JsonSettingsLoader)
        ensures
            l.base_path@ == base_path@,
    {
        JsonSettingsLoader { base_path: base_path.to_owned() }
    }
}

impl SettingsLoader for JsonSettingsLoader {
    fn load(&mut self) -> Settings {
        Settings::default()
    }

    fn save(&mut self, settings: Settings) {
        let _ = settings;
    }
}

} // verus!
