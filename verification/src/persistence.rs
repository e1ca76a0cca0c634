//! The persistence collaborator contract: loading and storing the
//! schedule and the settings.  The storage format itself is the
//! collaborator's concern and is not given here; the bundled loaders hand
//! back usable default values, as the contract demands when nothing is
//! stored.

pub mod schedule;
pub mod settings;

pub use schedule::JsonScheduleLoader;
pub use schedule::ScheduleLoader;
pub use settings::JsonSettingsLoader;
pub use settings::SettingsLoader;
