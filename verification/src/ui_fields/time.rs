//! The time input leaf: two digit buffers, one for hours and one for
//! minutes, with a left/right toggle between them instead of a free
//! cursor.  Its combined value is always a valid zero-padded `HH:MM`.

use vstd::prelude::*;
use crate::action::Action;
use crate::digits::{digits_val, numeral_of, parse_bounded};
use crate::event::Key;
use crate::models::time::{Time, time_chars, valid_time_chars};
use crate::ui_fields::base::BorderStyle;
use crate::ui_fields::handler::buffer_key_transition;
use crate::ui_fields::int_field::IntInputHandler;

verus! {

/// Which of the two buffers has the keyboard.
#[derive(Clone, Copy, Debug, PartialEq, Eq, Structural)]
pub enum SelectedField {
    Hours,
    Minutes,
}

impl Default for SelectedField {
    fn default() -> (r: SelectedField)
        ensures
            r == SelectedField::Hours,
    {
        SelectedField::Hours
    }
}

/// The hour a time field currently names; an empty buffer reads as zero.
pub open spec fn spec_hours(f: TimeInputField) -> int {
    if f.hours.0.text@.len() == 0 {
        0
    } else {
        digits_val(f.hours.0.text@)
    }
}

/// The minute a time field currently names.
pub open spec fn spec_minutes(f: TimeInputField) -> int {
    if f.minutes.0.text@.len() == 0 {
        0
    } else {
        digits_val(f.minutes.0.text@)
    }
}

/// How one key press transforms the time editor: a horizontal arrow
/// toggles which buffer has the keyboard without touching either value;
/// any other key goes to exactly the focused buffer, leaving the other
/// untouched.  The box itself never changes.
pub open spec fn time_key_transition(pre: TimeInputField, post: TimeInputField, key: Key) -> bool {
    &&& post.title == pre.title
    &&& post.border_style == pre.border_style
    &&& post.is_cursor_visible == pre.is_cursor_visible
    &&& if key == Key::Left || key == Key::Right {
        &&& post.selected_field != pre.selected_field
        &&& post.hours == pre.hours
        &&& post.minutes == pre.minutes
    } else {
        &&& post.selected_field == pre.selected_field
        &&& match pre.selected_field {
            SelectedField::Hours => buffer_key_transition(pre.hours.0, post.hours.0, key)
                && post.minutes == pre.minutes,
            SelectedField::Minutes => buffer_key_transition(pre.minutes.0, post.minutes.0, key)
                && post.hours == pre.hours,
        }
    }
}

/// The composite time editor.
#[derive(Debug)]
pub struct TimeInputField {
    pub hours: IntInputHandler,
    pub minutes: IntInputHandler,
    pub title: String,
    pub selected_field: SelectedField,
    pub border_style: BorderStyle,
    pub is_cursor_visible: bool,
}

impl TimeInputField {
    /// Hours capped at 23, minutes at 59: whatever was typed, the field
    /// names a real time of day.
    pub open spec fn wf(&self) -> bool {
        self.hours.wf_max(23) && self.minutes.wf_max(59)
    }

    pub fn new(title: Option<String>, initial_time: Option<Time>) -> (f: TimeInputField)
        requires
            initial_time matches Some(t) ==> t.wf(),
        ensures
            f.wf(),
            f.selected_field == SelectedField::Hours,
            !f.is_cursor_visible,
            f.border_style == BorderStyle::Plain,
            initial_time matches Some(t) ==> f.hours.0.text@ == numeral_of(t.0 as int)
                && f.minutes.0.text@ == numeral_of(t.1 as int),
            initial_time is None ==> f.hours.0.text@.len() == 0 && f.minutes.0.text@.len()
                == 0,
            title matches Some(t) ==> f.title@ == t@,
    {
        let (hours_init, minutes_init): (Option<u32>, Option<u32>) = match &initial_time {
            Some(time) => (Some(time.hours() as u32), Some(time.minutes() as u32)),
            None => (None, None),
        };
        TimeInputField {
            hours: IntInputHandler::new(hours_init, 23),
            minutes: IntInputHandler::new(minutes_init, 59),
            border_style: BorderStyle::Plain,
            is_cursor_visible: false,
            selected_field: SelectedField::Hours,
            title: match title {
                Some(t) => t,
                None => String::new(),
            },
        }
    }

    /// The hour and minute currently named, both in range.
    pub fn get_parsed_input(&self) -> (r: (u8, u8))
        requires
            self.wf(),
        ensures
            r.0 == spec_hours(*self),
            r.1 == spec_minutes(*self),
            r.0 <= 23,
            r.1 <= 59,
    {
        let hours: u8 = match parse_bounded(&self.hours.0.text, 23) {
            Some(v) => v as u8,
            None => 0,
        };
        let minutes: u8 = match parse_bounded(&self.minutes.0.text, 59) {
            Some(v) => v as u8,
            None => 0,
        };
        (hours, minutes)
    }

    /// The combined value: always a valid zero-padded `HH:MM` string.
    pub fn get_value(&self) -> (r: String)
        requires
            self.wf(),
        ensures
            r@ == time_chars(spec_hours(*self), spec_minutes(*self)),
            valid_time_chars(r@),
    {
        let (hours, minutes) = self.get_parsed_input();
        Time(hours, minutes).format()
    }

    pub fn borders(&mut self, border_style: BorderStyle)
        ensures
            *final(self) == (TimeInputField { border_style, ..*old(self) }),
    {
        self.border_style = border_style;
    }

    pub fn set_cursor_visibility(&mut self, visible: bool)
        ensures
            *final(self) == (TimeInputField { is_cursor_visible: visible, ..*old(self) }),
    {
        self.is_cursor_visible = visible;
    }

    /// A horizontal arrow toggles between the hour and minute buffers;
    /// every other key goes to exactly the buffer that has the keyboard.
    pub fn handle_key_event(&mut self, key: Key) -> (r: Option<Action>)
        requires
            old(self).wf(),
        ensures
            final(self).wf(),
            r is None,
            time_key_transition(*old(self), *final(self), key),
    {
        if key == Key::Left || key == Key::Right {
            self.selected_field = match self.selected_field {
                SelectedField::Hours => SelectedField::Minutes,
                SelectedField::Minutes => SelectedField::Hours,
            };
        } else {
            match self.selected_field {
                SelectedField::Hours => self.hours.handle_key_event(key),
                SelectedField::Minutes => self.minutes.handle_key_event(key),
            };
        }
        None
    }
}

} // verus!
