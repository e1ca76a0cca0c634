//! The interactive pages: the schedule browser/editor, the settings list,
//! and the home page that switches between them.

pub mod home;
pub mod schedule;
pub mod settings;

pub use home::Home;
pub use schedule::SchedulePage;
pub use settings::SettingsPage;
