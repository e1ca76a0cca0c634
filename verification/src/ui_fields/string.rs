//! The free-text input leaf: a length-capped character buffer.

use vstd::prelude::*;
use crate::action::Action;
use crate::event::Key;
use crate::ui_fields::base::{BaseInputField, BorderStyle, FieldHandler, handler_key_transition, handler_value};
use crate::ui_fields::handler::{BaseInputHandler, Validation};

verus! {

/// The text form field: the common bordered box around a plain buffer.
#[derive(Debug)]
pub struct StrInputField(pub BaseInputField);

impl StrInputField {
    pub open spec fn wf(&self) -> bool {
        self.0.wf()
    }

    pub fn new(title: Option<String>, max_length: usize, initial_text: Option<String>) -> (f:
        StrInputField)
        ensures
            f.wf(),
            !f.0.is_cursor_visible,
            f.0.border_style == BorderStyle::Plain,
            f.0.input_handler matches FieldHandler::Base(h) && h.max_length == max_length
                && (initial_text matches Some(t) ==> h.text@ == BaseInputHandler::clipped(
                t@,
                max_length as int,
            )) && (initial_text is None ==> h.text@.len() == 0),
    {
        StrInputField(
            BaseInputField::new(
                title,
                FieldHandler::Base(BaseInputHandler::new(initial_text, max_length, Validation::Any)),
            ),
        )
    }

    pub fn get_value(&self) -> (r: String)
        ensures
            r@ == handler_value(self.0.input_handler),
    {
        self.0.get_value()
    }

    pub fn borders(&mut self, border_style: BorderStyle)
        ensures
            *final(self) == (StrInputField(
                BaseInputField { border_style, ..old(self).0 },
            )),
    {
        self.0.borders(border_style);
    }

    pub fn set_cursor_visibility(&mut self, visible: bool)
        ensures
            *final(self) == (StrInputField(
                BaseInputField { is_cursor_visible: visible, ..old(self).0 },
            )),
    {
        self.0.set_cursor_visibility(visible);
    }

    /// Hands the key to the text buffer: the cursor moves, a character is
    /// inserted or backspace deletes, exactly as the buffer's transition
    /// says; the box around it is untouched.
    pub fn handle_key_event(&mut self, key: Key) -> (r: Option<Action>)
        requires
            old(self).wf(),
        ensures
            final(self).wf(),
            r is None,
            final(self).0.title == old(self).0.title,
            final(self).0.border_style == old(self).0.border_style,
            final(self).0.is_cursor_visible == old(self).0.is_cursor_visible,
            final(self).0.left_padding == old(self).0.left_padding,
            handler_key_transition(
                old(self).0.input_handler,
                final(self).0.input_handler,
                key,
            ),
    {
        self.0.handle_key_event(key)
    }
}

} // verus!
