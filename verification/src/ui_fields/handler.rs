//! The bounded text buffer behind every editable field: a character list,
//! a cursor, a length cap, and a keystroke-level validation rule.  The
//! buffer never holds a text the rule refuses.

use vstd::prelude::*;
use crate::digits::{all_digits, digits_val, parse_bounded, lemma_digits_val_remove};
use crate::event::Key;
use crate::action::Action;
use crate::utils::{chars_string, str_chars};

verus! {

/// The validation rule a buffer applies to each candidate text.
#[derive(Clone, Copy, Debug, PartialEq, Eq, Structural)]
pub enum Validation {
    /// Every text is welcome.
    Any,
    /// Only non-empty digit strings whose value stays within the maximum.
    MaxInt(u32),
}

/// Whether `s` is a text the rule accepts.
pub open spec fn text_allowed(v: Validation, s: Seq<char>) -> bool {
    match v {
        Validation::Any => true,
        Validation::MaxInt(max) => s.len() > 0 && all_digits(s) && digits_val(s) <= max,
    }
}

/// Whether `s` is a state the buffer may rest in: an accepted text, or
/// nothing yet.
pub open spec fn text_ok(v: Validation, s: Seq<char>) -> bool {
    match v {
        Validation::Any => true,
        Validation::MaxInt(max) => all_digits(s) && digits_val(s) <= max,
    }
}

/// The maximum a numeric rule allows; meaningless for the unrestricted
/// rule.
pub open spec fn validation_max(v: Validation) -> int {
    match v {
        Validation::Any => 0,
        Validation::MaxInt(max) => max as int,
    }
}

/// How one key press transforms a buffer: arrows move the cursor inside
/// the text, a character keystroke inserts at the cursor when the rule
/// accepts the text that would result, backspace deletes before the
/// cursor, and any other key changes nothing.  The cap and the rule never
/// change.
pub open spec fn buffer_key_transition(
    pre: BaseInputHandler,
    post: BaseInputHandler,
    key: Key,
) -> bool {
    &&& post.max_length == pre.max_length
    &&& post.validate == pre.validate
    &&& match key {
        Key::Left => post.text == pre.text && post.cursor == if pre.cursor > 0 {
            pre.cursor - 1
        } else {
            0int
        },
        Key::Right => post.text == pre.text && post.cursor == if pre.cursor < pre.text@.len() {
            pre.cursor + 1
        } else {
            pre.cursor as int
        },
        Key::Char(c) => {
            let cand = pre.text@.insert(pre.cursor as int, c);
            if pre.text@.len() < pre.max_length && text_allowed(pre.validate, cand) {
                post.text@ == cand && post.cursor == pre.cursor + 1
            } else {
                post.text@ == pre.text@ && post.cursor == pre.cursor
            }
        },
        Key::Backspace => if pre.cursor > 0 {
            post.text@ == pre.text@.remove(pre.cursor - 1) && post.cursor == pre.cursor - 1
        } else {
            post.text@ == pre.text@ && post.cursor == pre.cursor
        },
        _ => post == pre,
    }
}

/// A bounded, validated character buffer with a movable cursor.
#[derive(Debug)]
pub struct BaseInputHandler {
    pub text: Vec<char>,
    pub cursor: usize,
    pub max_length: usize,
    pub validate: Validation,
}

impl BaseInputHandler {
    /// The cursor sits inside or just past the text, the text respects the
    /// length cap, and it is a state the validation rule allows.
    pub open spec fn wf(&self) -> bool {
        &&& self.cursor <= self.text@.len()
        &&& self.text@.len() <= self.max_length
        &&& text_ok(self.validate, self.text@)
    }

    /// The initial text, cut down to the length cap.
    pub open spec fn clipped(s: Seq<char>, max_length: int) -> Seq<char> {
        if s.len() <= max_length {
            s
        } else {
            s.subrange(0, max_length)
        }
    }

    /// A fresh buffer holding the initial text (cut to the cap), with the
    /// cursor after its last character.  An initial text must already be a
    /// state the rule allows.
    pub fn new(initial: Option<String>, max_length: usize, validate: Validation) -> (h:
        BaseInputHandler)
        requires
            initial matches Some(s) ==> text_ok(
                validate,
                Self::clipped(s@, max_length as int),
            ),
        ensures
            h.wf(),
            h.max_length == max_length,
            h.validate == validate,
            initial matches Some(s) ==> h.text@ == Self::clipped(s@, max_length as int),
            initial is None ==> h.text@.len() == 0,
            h.cursor == h.text@.len(),
    {
        let text: Vec<char> = match initial {
            Some(s) => {
                let mut v = str_chars(s.as_str());
                if v.len() > max_length {
                    v.truncate(max_length);
                }
                v
            },
            None => Vec::new(),
        };
        let cursor = text.len();
        BaseInputHandler { text, cursor, max_length, validate }
    }

    /// The buffer's text as a string.
    pub fn value(&self) -> (r: String)
        ensures
            r@ == self.text@,
    {
        chars_string(&self.text)
    }

    pub fn cursor_position(&self) -> (r: usize)
        ensures
            r == self.cursor,
    {
        self.cursor
    }

    pub fn len(&self) -> (r: usize)
        ensures
            r == self.text@.len(),
    {
        self.text.len()
    }

    /// One step left, stopping at the start.
    pub fn try_move_cursor_left(&mut self)
        requires
            old(self).wf(),
        ensures
            final(self).wf(),
            final(self).text == old(self).text,
            final(self).max_length == old(self).max_length,
            final(self).validate == old(self).validate,
            final(self).cursor == if old(self).cursor > 0 {
                old(self).cursor - 1
            } else {
                0int
            },
    {
        if self.cursor > 0 {
            self.cursor = self.cursor - 1;
        }
    }

    /// One step right, stopping after the last character.
    pub fn try_move_cursor_right(&mut self)
        requires
            old(self).wf(),
        ensures
            final(self).wf(),
            final(self).text == old(self).text,
            final(self).max_length == old(self).max_length,
            final(self).validate == old(self).validate,
            final(self).cursor == if old(self).cursor < old(self).text@.len() {
                old(self).cursor + 1
            } else {
                old(self).cursor as int
            },
    {
        if self.cursor < self.text.len() {
            self.cursor = self.cursor + 1;
        }
    }

    /// Inserts `c` at the cursor if the text has room and the rule accepts
    /// the text that would result; otherwise leaves everything as it was.
    pub fn try_insert_char(&mut self, c: char)
        requires
            old(self).wf(),
        ensures
            final(self).wf(),
            final(self).max_length == old(self).max_length,
            final(self).validate == old(self).validate,
            ({
                let cand = old(self).text@.insert(old(self).cursor as int, c);
                if old(self).text@.len() < old(self).max_length && text_allowed(
                    old(self).validate,
                    cand,
                ) {
                    final(self).text@ == cand && final(self).cursor == old(self).cursor + 1
                } else {
                    final(self).text@ == old(self).text@ && final(self).cursor == old(self).cursor
                }
            }),
    {
        if self.text.len() < self.max_length {
            let mut new_value: Vec<char> = Vec::new();
            let mut k: usize = 0;
            while k < self.cursor
                invariant
                    0 <= k <= self.cursor,
                    self.cursor <= self.text@.len(),
                    new_value@ =~= self.text@.subrange(0, k as int),
                decreases self.cursor - k,
            {
                new_value.push(self.text[k]);
                k += 1;
            }
            new_value.push(c);
            let mut k2: usize = self.cursor;
            while k2 < self.text.len()
                invariant
                    self.cursor <= k2 <= self.text@.len(),
                    new_value@ =~= self.text@.subrange(0, self.cursor as int).push(c).add(
                        self.text@.subrange(self.cursor as int, k2 as int),
                    ),
                decreases self.text@.len() - k2,
            {
                new_value.push(self.text[k2]);
                k2 += 1;
            }
            proof {
                assert(new_value@ =~= self.text@.insert(self.cursor as int, c));
            }
            let accepted = match self.validate {
                Validation::Any => true,
                Validation::MaxInt(max) => parse_bounded(&new_value, max).is_some(),
            };
            if accepted {
                self.text = new_value;
                self.cursor = self.cursor + 1;
            }
        }
    }

    /// Deletes the character before the cursor, if there is one.
    pub fn backspace(&mut self)
        requires
            old(self).wf(),
        ensures
            final(self).wf(),
            final(self).max_length == old(self).max_length,
            final(self).validate == old(self).validate,
            old(self).cursor > 0 ==> final(self).text@ == old(self).text@.remove(
                old(self).cursor - 1,
            ) && final(self).cursor == old(self).cursor - 1,
            old(self).cursor == 0 ==> final(self).text@ == old(self).text@ && final(self).cursor == 0,
    {
        if self.cursor > 0 {
            self.text.remove(self.cursor - 1);
            self.cursor = self.cursor - 1;
            proof {
                match old(self).validate {
                    Validation::Any => {},
                    Validation::MaxInt(max) => {
                        lemma_digits_val_remove(old(self).text@, old(self).cursor - 1);
                    },
                }
            }
        }
    }

    /// Routes one key press: arrows move the cursor, a character key tries
    /// an insert, backspace deletes.  No action is ever emitted.
    pub fn handle_key_event(&mut self, key: Key) -> (r: Option<Action>)
        requires
            old(self).wf(),
        ensures
            final(self).wf(),
            r is None,
            buffer_key_transition(*old(self), *final(self), key),
    {
        match key {
            Key::Right => self.try_move_cursor_right(),
            Key::Left => self.try_move_cursor_left(),
            Key::Char(c) => self.try_insert_char(c),
            Key::Backspace => self.backspace(),
            _ => (),
        }
        None
    }
}

} // verus!
