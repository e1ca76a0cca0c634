//! A one-line text editor whose cursor blinks on the logic tick.  The
//! text always carries one trailing blank so the cursor has a cell to
//! rest on after the last character.

use vstd::prelude::*;
use crate::action::Action;
use crate::event::Key;
use crate::utils::str_chars;

verus! {

/// The editor: the text (with its trailing blank), the cursor, and the
/// blink counter.
#[derive(Debug)]
pub struct InputField {
    pub title: String,
    pub text: Vec<char>,
    pub cursor: usize,
    pub ticks_with_cursor: u8,
    pub showing_cursor_period: u8,
}

impl InputField {
    /// The text keeps its trailing blank and the cursor stays on a cell.
    pub open spec fn wf(&self) -> bool {
        &&& self.text@.len() > 0
        &&& self.text@.last() == ' '
        &&& self.cursor < self.text@.len()
        &&& 0 < self.showing_cursor_period <= 100
        &&& self.ticks_with_cursor < 2 * self.showing_cursor_period
    }

    pub fn new(title: String, initial_text: Option<String>) -> (f: InputField)
        ensures
            f.wf(),
            f.title == title,
            initial_text matches Some(t) ==> f.text@ == t@.push(' ') && f.cursor == t@.len(),
            initial_text is None ==> f.text@ == seq![' '] && f.cursor == 0,
    {
        let mut text: Vec<char> = match &initial_text {
            Some(t) => str_chars(t.as_str()),
            None => Vec::new(),
        };
        let cursor = text.len();
        text.push(' ');
        InputField { title, text, cursor, ticks_with_cursor: 0, showing_cursor_period: 3 }
    }

    fn try_move_cursor_left(&mut self)
        requires
            old(self).wf(),
        ensures
            final(self).wf(),
            final(self).text == old(self).text,
            final(self).cursor == if old(self).cursor > 0 {
                old(self).cursor - 1
            } else {
                0int
            },
            final(self).ticks_with_cursor == if old(self).cursor > 0 {
                0int
            } else {
                old(self).ticks_with_cursor as int
            },
    {
        if self.cursor > 0 {
            self.cursor = self.cursor - 1;
            self.ticks_with_cursor = 0;
        }
    }

    fn try_move_cursor_right(&mut self)
        requires
            old(self).wf(),
        ensures
            final(self).wf(),
            final(self).text == old(self).text,
            final(self).cursor == if old(self).cursor + 1 < old(self).text@.len() {
                old(self).cursor + 1
            } else {
                old(self).cursor as int
            },
    {
        if self.cursor < self.text.len() - 1 {
            self.cursor = self.cursor + 1;
            self.ticks_with_cursor = 0;
        }
    }

    fn type_char(&mut self, c: char)
        requires
            old(self).wf(),
        ensures
            final(self).wf(),
            final(self).text@ == old(self).text@.insert(old(self).cursor as int, c),
            final(self).cursor == old(self).cursor + 1,
            final(self).ticks_with_cursor == 0,
    {
        proof {
            vstd::std_specs::vec::axiom_spec_len(&self.text);
        }
        self.text.insert(self.cursor, c);
        self.cursor = self.cursor + 1;
        self.ticks_with_cursor = 0;
        proof {
            assert(self.text@.last() == old(self).text@.last());
        }
    }

    fn backspace(&mut self)
        requires
            old(self).wf(),
        ensures
            final(self).wf(),
            old(self).cursor > 0 ==> final(self).text@ == old(self).text@.remove(
                old(self).cursor - 1,
            ) && final(self).cursor == old(self).cursor - 1,
            old(self).cursor == 0 ==> *final(self) == *old(self),
    {
        if self.cursor > 0 {
            self.text.remove(self.cursor - 1);
            self.cursor = self.cursor - 1;
            proof {
                assert(self.text@.last() == old(self).text@.last());
            }
        }
    }

    /// Arrows move the cursor, a character key inserts, backspace
    /// deletes; each edit restarts the blink so the cursor shows.
    pub fn handle_key_event(&mut self, key: Key) -> (r: Option<Action>)
        requires
            old(self).wf(),
        ensures
            final(self).wf(),
            r is None,
            key matches Key::Char(c) ==> final(self).text@ == old(self).text@.insert(
                old(self).cursor as int,
                c,
            ) && final(self).cursor == old(self).cursor + 1,
            key == Key::Backspace && old(self).cursor > 0 ==> final(self).text@ == old(
                self,
            ).text@.remove(old(self).cursor - 1) && final(self).cursor == old(self).cursor - 1,
    {
        match key {
            Key::Right => self.try_move_cursor_right(),
            Key::Left => self.try_move_cursor_left(),
            Key::Char(c) => self.type_char(c),
            Key::Backspace => self.backspace(),
            _ => {},
        }
        None
    }

    /// On each logic tick the blink counter advances and wraps; the
    /// cursor is painted during the first half of the cycle.
    pub fn update(&mut self, action: Action) -> (r: Option<Action>)
        requires
            old(self).wf(),
        ensures
            final(self).wf(),
            r is None,
            action == Action::Tick ==> final(self).ticks_with_cursor == (old(
                self,
            ).ticks_with_cursor + 1) % (2 * old(self).showing_cursor_period),
            !(action == Action::Tick) ==> *final(self) == *old(self),
    {
        match action {
            Action::Tick => {
                self.ticks_with_cursor = self.ticks_with_cursor + 1;
                if self.ticks_with_cursor == 2 * self.showing_cursor_period {
                    self.ticks_with_cursor = 0;
                }
                proof {
                    if old(self).ticks_with_cursor + 1 == 2 * old(self).showing_cursor_period {
                        vstd::arithmetic::div_mod::lemma_mod_self_0(
                            2 * old(self).showing_cursor_period,
                        );
                    } else {
                        vstd::arithmetic::div_mod::lemma_small_mod(
                            (old(self).ticks_with_cursor + 1) as nat,
                            (2 * old(self).showing_cursor_period) as nat,
                        );
                    }
                }
            },
            _ => {},
        }
        None
    }

    /// Whether the cursor cell is painted highlighted this frame.
    pub fn cursor_shown(&self) -> (r: bool)
        ensures
            r == (self.ticks_with_cursor <= self.showing_cursor_period),
    {
        self.ticks_with_cursor <= self.showing_cursor_period
    }
}

} // verus!
