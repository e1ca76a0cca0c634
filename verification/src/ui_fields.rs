//! The form input leaves: a character buffer with a cursor and
//! keystroke-level validation, the numeric and time editors built on it,
//! and the enumerated-choice carousel.

pub mod base;
pub mod carousel;
pub mod handler;
pub mod int_field;
pub mod string;
pub mod time;

pub use base::BaseInputField;
pub use base::BorderStyle;
pub use carousel::CarouselInputField;
pub use handler::BaseInputHandler;
pub use handler::Validation;
pub use int_field::IntInputField;
pub use int_field::IntInputHandler;
pub use string::StrInputField;
pub use time::TimeInputField;
