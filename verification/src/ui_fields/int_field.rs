//! The numeric input leaf: a digit buffer capped at a configured maximum,
//! reading an empty buffer as zero.

use vstd::prelude::*;
use crate::action::Action;
use crate::digits::{
    all_digits,
    digits_val,
    lemma_numeral_len_mono,
    lemma_numeral_val,
    numeral_chars,
    numeral_of,
};
use crate::event::Key;
use crate::ui_fields::base::{BaseInputField, BorderStyle, FieldHandler, handler_key_transition, handler_value};
use crate::ui_fields::handler::{BaseInputHandler, Validation, buffer_key_transition, validation_max};
use crate::utils::chars_string;

verus! {

/// A digit buffer that never names a number above its maximum.
#[derive(Debug)]
pub struct IntInputHandler(pub BaseInputHandler);

/// The text the handler reports: its buffer, or `"0"` while the buffer is
/// empty.
pub open spec fn int_value(h: IntInputHandler) -> Seq<char> {
    if h.0.text@.len() == 0 {
        seq!['0']
    } else {
        h.0.text@
    }
}

impl IntInputHandler {
    /// The buffer is well formed and rules out anything but bounded digit
    /// strings.
    pub open spec fn wf(&self) -> bool {
        self.0.wf() && self.0.validate is MaxInt
    }

    /// Well formed with exactly the maximum `max`, and room for just as
    /// many digits as `max` itself needs.
    pub open spec fn wf_max(&self, max: u32) -> bool {
        &&& self.0.wf()
        &&& self.0.validate == Validation::MaxInt(max)
        &&& self.0.max_length == numeral_of(max as int).len()
    }

    /// A fresh handler capped at `max`, holding the numeral of the initial
    /// number if one is given.  An initial number must itself respect the
    /// cap, so that the buffer never starts out of range.
    pub fn new(initial_number: Option<u32>, max: u32) -> (h: IntInputHandler)
        requires
            initial_number matches Some(n) ==> n <= max,
        ensures
            h.wf(),
            h.wf_max(max),
            initial_number matches Some(n) ==> h.0.text@ == numeral_of(n as int),
            initial_number is None ==> h.0.text@.len() == 0,
            h.0.cursor == h.0.text@.len(),
    {
        let max_numeral = numeral_chars(max);
        let max_length = max_numeral.len();
        let initial = match initial_number {
            Some(n) => {
                let chars = numeral_chars(n);
                proof {
                    lemma_numeral_val(n as int);
                    lemma_numeral_len_mono(n as int, max as int);
                    assert(BaseInputHandler::clipped(chars@, max_length as int) == chars@);
                }
                Some(chars_string(&chars))
            },
            None => None,
        };
        IntInputHandler(BaseInputHandler::new(initial, max_length, Validation::MaxInt(max)))
    }

    /// The buffer as a string, `"0"` while it is empty.
    pub fn value(&self) -> (r: String)
        ensures
            r@ == int_value(*self),
            self.0.wf() && self.0.validate is MaxInt ==> all_digits(r@) && digits_val(r@)
                <= validation_max(self.0.validate),
    {
        proof {
            assert(seq!['0'].len() == 1);
            assert(seq!['0'].drop_last() =~= Seq::<char>::empty());
            assert(seq!['0'].last() == '0');
            assert(digits_val(Seq::<char>::empty()) == 0);
            assert(digits_val(seq!['0']) == 0);
            assert(all_digits(seq!['0']));
        }
        if self.0.text.len() == 0 {
            let mut r = String::new();
            r.push('0');
            proof {
                assert(r@ =~= seq!['0']);
            }
            r
        } else {
            self.0.value()
        }
    }

    pub fn cursor_position(&self) -> (r: usize)
        ensures
            r == self.0.cursor,
    {
        self.0.cursor_position()
    }

    pub fn len(&self) -> (r: usize)
        ensures
            r == self.0.text@.len(),
    {
        self.0.len()
    }

    /// Routes one key press to the buffer.  A character keystroke is kept
    /// only if the text it would produce is still a digit string within
    /// the maximum; arrows move the cursor and backspace deletes, as on
    /// any buffer.
    pub fn handle_key_event(&mut self, key: Key) -> (r: Option<Action>)
        requires
            old(self).wf(),
        ensures
            final(self).wf(),
            r is None,
            buffer_key_transition(old(self).0, final(self).0, key),
    {
        self.0.handle_key_event(key)
    }
}

/// The numeric form field: the common bordered box around an
/// [`IntInputHandler`].
#[derive(Debug)]
pub struct IntInputField(pub BaseInputField);

impl IntInputField {
    pub open spec fn wf(&self) -> bool {
        self.0.wf() && self.0.input_handler is Int
    }

    pub fn new(title: Option<String>, max: u32, initial_number: Option<u32>) -> (f:
        IntInputField)
        requires
            initial_number matches Some(n) ==> n <= max,
        ensures
            f.wf(),
            !f.0.is_cursor_visible,
            f.0.border_style == BorderStyle::Plain,
            f.0.input_handler matches FieldHandler::Int(h) && h.wf_max(max) && (
            initial_number matches Some(n) ==> h.0.text@ == numeral_of(n as int)) && (
            initial_number is None ==> h.0.text@.len() == 0),
    {
        IntInputField(
            BaseInputField::new(
                title,
                FieldHandler::Int(IntInputHandler::new(initial_number, max)),
            ),
        )
    }

    pub fn get_value(&self) -> (r: String)
        ensures
            r@ == handler_value(self.0.input_handler),
    {
        self.0.get_value()
    }

    pub fn borders(&mut self, border_style: BorderStyle)
        ensures
            *final(self) == (IntInputField(
                BaseInputField { border_style, ..old(self).0 },
            )),
    {
        self.0.borders(border_style);
    }

    pub fn set_cursor_visibility(&mut self, visible: bool)
        ensures
            *final(self) == (IntInputField(
                BaseInputField { is_cursor_visible: visible, ..old(self).0 },
            )),
    {
        self.0.set_cursor_visibility(visible);
    }

    /// Hands the key to the numeric buffer: it transitions exactly as the
    /// buffer's transition says; the box around it is untouched.
    pub fn handle_key_event(&mut self, key: Key) -> (r: Option<Action>)
        requires
            old(self).wf(),
        ensures
            final(self).wf(),
            r is None,
            final(self).0.title == old(self).0.title,
            final(self).0.border_style == old(self).0.border_style,
            final(self).0.is_cursor_visible == old(self).0.is_cursor_visible,
            final(self).0.left_padding == old(self).0.left_padding,
            handler_key_transition(
                old(self).0.input_handler,
                final(self).0.input_handler,
                key,
            ),
    {
        self.0.handle_key_event(key)
    }
}

} // verus!
