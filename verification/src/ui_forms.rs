//! Form editing: a grid of input fields navigated by a 2D selector, with
//! a browsing/editing state machine, and the concrete conference edit
//! form built from it.

pub mod conference_edit;
pub mod form;

pub use conference_edit::ConferenceEditForm;
pub use form::Form;
pub use form::FormField;
