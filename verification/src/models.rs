//! The data model: a validated time of day, the recurrence week, a
//! conference record, the seven-day schedule storage shape, and the
//! session settings.

pub mod conference;
pub mod schedule;
pub mod settings;
pub mod time;

pub use conference::Conference;
pub use conference::Week;
pub use schedule::Schedule;
pub use settings::Settings;
pub use time::Time;
