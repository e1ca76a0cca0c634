//! The conference edit form: a five-row grid of fields for a conference
//! record, and the reading of a record back out of the grid.

use vstd::prelude::*;
use crate::digits::{lemma_digits_val_nonneg, lemma_numeral_val, numeral_of};
use crate::action::Action;
use crate::event::Key;
use crate::models::conference::{Conference, Week};
use crate::models::time::{Time, time_chars, lemma_format_valid};
use crate::ui_fields::base::BorderStyle;
use crate::ui_fields::carousel::CarouselInputField;
use crate::ui_fields::handler::BaseInputHandler;
use crate::ui_fields::string::StrInputField;
use crate::ui_fields::time::{TimeInputField, spec_hours, spec_minutes};
use crate::ui_forms::form::{Form, FormField, field_value, form_key_transition, form_update_frame};
use crate::utils::str_eq_chars;

verus! {

/// What reading a form back guarantees of the record that comes out:
/// every field of the record is the value its form field shows, an empty
/// password field means no password, and the recurrence week is the
/// default.
pub open spec fn read_back(c: Conference, form: ConferenceEditForm) -> bool {
    &&& c.wf()
    &&& c.title@ == field_value(form.0.layout@[0]@[0].0)
    &&& time_chars(c.start_time.0 as int, c.start_time.1 as int) == field_value(
        form.0.layout@[1]@[0].0,
    )
    &&& time_chars(c.end_time.0 as int, c.end_time.1 as int) == field_value(
        form.0.layout@[1]@[1].0,
    )
    &&& c.link@ == field_value(form.0.layout@[2]@[0].0)
    &&& (field_value(form.0.layout@[3]@[0].0).len() == 0 ==> c.password is None)
    &&& (field_value(form.0.layout@[3]@[0].0).len() > 0 ==> (c.password matches Some(p) && p@
        == field_value(form.0.layout@[3]@[0].0)))
    &&& c.autostart_permission == (field_value(form.0.layout@[4]@[0].0) == "Allow"@)
    &&& c.week == Week::Every
}

/// What a freshly built form shows of the record it was opened on: the
/// browsing state, the selection at the top left, and every field holding
/// the record's value (texts cut to the fifty-character cap).
pub open spec fn edit_form_shows(form: ConferenceEditForm, c: Conference) -> bool {
    &&& form.wf()
    &&& !form.0.is_selected_field_active
    &&& form.0.spec_selected() == (0int, 0int)
    &&& field_value(form.0.layout@[0]@[0].0) == BaseInputHandler::clipped(c.title@, 50)
    &&& field_value(form.0.layout@[1]@[0].0) == time_chars(
        c.start_time.0 as int,
        c.start_time.1 as int,
    )
    &&& field_value(form.0.layout@[1]@[1].0) == time_chars(
        c.end_time.0 as int,
        c.end_time.1 as int,
    )
    &&& field_value(form.0.layout@[2]@[0].0) == BaseInputHandler::clipped(c.link@, 50)
    &&& (c.password matches Some(p) ==> field_value(form.0.layout@[3]@[0].0)
        == BaseInputHandler::clipped(p@, 50))
    &&& (c.password is None ==> field_value(form.0.layout@[3]@[0].0).len() == 0)
    &&& (c.autostart_permission ==> field_value(form.0.layout@[4]@[0].0) == "Allow"@)
    &&& (!c.autostart_permission ==> field_value(form.0.layout@[4]@[0].0) == "Deny"@)
}

/// What the form built for a brand-new record shows: everything blank,
/// both times at midnight, autostart denied.
pub open spec fn fresh_form_shows(form: ConferenceEditForm) -> bool {
    &&& form.wf()
    &&& !form.0.is_selected_field_active
    &&& form.0.spec_selected() == (0int, 0int)
    &&& field_value(form.0.layout@[0]@[0].0).len() == 0
    &&& field_value(form.0.layout@[1]@[0].0) == time_chars(0, 0)
    &&& field_value(form.0.layout@[1]@[1].0) == time_chars(0, 0)
    &&& field_value(form.0.layout@[2]@[0].0).len() == 0
    &&& field_value(form.0.layout@[3]@[0].0).len() == 0
    &&& field_value(form.0.layout@[4]@[0].0) == "Deny"@
}

/// The form for one conference record: title, start and end time, link,
/// password, and the autostart choice, in that row order.
#[derive(Debug)]
pub struct ConferenceEditForm(pub Form);

impl ConferenceEditForm {
    /// The grid has exactly the conference shape: five rows, the second
    /// holding the two time editors, the last the autostart carousel.
    pub open spec fn wf(&self) -> bool {
        &&& self.0.wf()
        &&& self.0.layout@.len() == 5
        &&& self.0.layout@[0]@.len() == 1
        &&& self.0.layout@[1]@.len() == 2
        &&& self.0.layout@[2]@.len() == 1
        &&& self.0.layout@[3]@.len() == 1
        &&& self.0.layout@[4]@.len() == 1
        &&& self.0.layout@[0]@[0].0 is Str
        &&& self.0.layout@[1]@[0].0 is Time
        &&& self.0.layout@[1]@[1].0 is Time
        &&& self.0.layout@[2]@[0].0 is Str
        &&& self.0.layout@[3]@[0].0 is Str
        &&& self.0.layout@[4]@[0].0 is Carousel
    }

    /// Builds the form pre-filled from a conference record.
    pub fn new(conference: Conference) -> (f: ConferenceEditForm)
        requires
            conference.wf(),
        ensures
            edit_form_shows(f, conference),
    {
        let title_field = StrInputField::new(Some("Title".to_owned()), 50, Some(conference.title));
        let start_field = TimeInputField::new(
            Some("Start Time".to_owned()),
            Some(conference.start_time),
        );
        let end_field = TimeInputField::new(Some("End Time".to_owned()), Some(conference.end_time));
        let link_field = StrInputField::new(Some("Link".to_owned()), 50, Some(conference.link));
        let password_field = StrInputField::new(
            Some("Password".to_owned()),
            50,
            Some(
                match conference.password {
                    Some(p) => p,
                    None => String::new(),
                },
            ),
        );
        let mut options: Vec<String> = Vec::new();
        options.push("Deny".to_owned());
        options.push("Allow".to_owned());
        let initial_option: usize = if conference.autostart_permission {
            1
        } else {
            0
        };
        let autostart_field = CarouselInputField::new(
            Some("Autostart".to_owned()),
            options,
            initial_option,
        );

        proof {
            lemma_numeral_len_positive(conference.start_time.0 as int);
            lemma_numeral_len_positive(conference.start_time.1 as int);
            lemma_numeral_len_positive(conference.end_time.0 as int);
            lemma_numeral_len_positive(conference.end_time.1 as int);
            lemma_numeral_val(conference.start_time.0 as int);
            lemma_numeral_val(conference.start_time.1 as int);
            lemma_numeral_val(conference.end_time.0 as int);
            lemma_numeral_val(conference.end_time.1 as int);
        }

        let mut row0: Vec<(FormField, u16)> = Vec::new();
        row0.push((FormField::Str(title_field), 50));
        let mut row1: Vec<(FormField, u16)> = Vec::new();
        row1.push((FormField::Time(start_field), 25));
        row1.push((FormField::Time(end_field), 25));
        let mut row2: Vec<(FormField, u16)> = Vec::new();
        row2.push((FormField::Str(link_field), 50));
        let mut row3: Vec<(FormField, u16)> = Vec::new();
        row3.push((FormField::Str(password_field), 50));
        let mut row4: Vec<(FormField, u16)> = Vec::new();
        row4.push((FormField::Carousel(autostart_field), 50));

        let mut field_layout: Vec<Vec<(FormField, u16)>> = Vec::new();
        field_layout.push(row0);
        field_layout.push(row1);
        field_layout.push(row2);
        field_layout.push(row3);
        field_layout.push(row4);

        ConferenceEditForm(
            Form::new(field_layout).with_field_style(BorderStyle::Field).with_selected_field_style(
                BorderStyle::Selected,
            ).with_active_field_style(BorderStyle::Active),
        )
    }

    /// Reads the conference back out of the grid.  The time fields always
    /// hold a valid `HH:MM`, so reading never fails; an empty password
    /// field means no password; the recurrence week is not edited here and
    /// comes out as its default.
    pub fn get_conference(&self) -> (r: Conference)
        requires
            self.wf(),
        ensures
            r.wf(),
            r.title@ == field_value(self.0.layout@[0]@[0].0),
            time_chars(r.start_time.0 as int, r.start_time.1 as int) == field_value(
                self.0.layout@[1]@[0].0,
            ),
            time_chars(r.end_time.0 as int, r.end_time.1 as int) == field_value(
                self.0.layout@[1]@[1].0,
            ),
            r.link@ == field_value(self.0.layout@[2]@[0].0),
            field_value(self.0.layout@[3]@[0].0).len() == 0 ==> r.password is None,
            field_value(self.0.layout@[3]@[0].0).len() > 0 ==> (r.password matches Some(p)
                && p@ == field_value(self.0.layout@[3]@[0].0)),
            r.autostart_permission == (field_value(self.0.layout@[4]@[0].0) == "Allow"@),
            r.week == Week::Every,
            read_back(r, *self),
    {
        let input = self.0.get_input();
        proof {
            assert(self.0.layout@[1]@[0].0.wf());
            assert(self.0.layout@[1]@[1].0.wf());
            let t0 = self.0.layout@[1]@[0].0;
            if let FormField::Time(tf) = t0 {
                lemma_digits_val_nonneg(tf.hours.0.text@);
                lemma_digits_val_nonneg(tf.minutes.0.text@);
                lemma_format_valid(
                    spec_hours(tf),
                    spec_minutes(tf),
                );
            }
            let t1 = self.0.layout@[1]@[1].0;
            if let FormField::Time(tf) = t1 {
                lemma_digits_val_nonneg(tf.hours.0.text@);
                lemma_digits_val_nonneg(tf.minutes.0.text@);
                lemma_format_valid(
                    spec_hours(tf),
                    spec_minutes(tf),
                );
            }
        }
        let start_time = match Time::parse(input[1][0].as_str()) {
            Ok(t) => t,
            Err(_) => {
                proof {
                    assert(false);
                }
                Time(0, 0)
            },
        };
        let end_time = match Time::parse(input[1][1].as_str()) {
            Ok(t) => t,
            Err(_) => {
                proof {
                    assert(false);
                }
                Time(0, 0)
            },
        };
        let password = if input[3][0].as_str().unicode_len() > 0 {
            Some(input[3][0].clone())
        } else {
            None
        };
        let autostart_permission = str_eq_chars(input[4][0].as_str(), "Allow");
        proof {
            lemma_time_round(start_time, self.0.layout@[1]@[0].0);
            lemma_time_round(end_time, self.0.layout@[1]@[1].0);
        }
        Conference {
            title: input[0][0].clone(),
            start_time,
            end_time,
            link: input[2][0].clone(),
            password,
            autostart_permission,
            week: Week::Every,
        }
    }

    /// The key goes to the underlying form, which transitions exactly by
    /// the form state machine.
    pub fn handle_key_event(&mut self, key: Key) -> (r: Option<Action>)
        requires
            old(self).wf(),
        ensures
            final(self).wf(),
            r is None,
            form_key_transition(old(self).0, final(self).0, key),
    {
        self.0.handle_key_event(key)
    }

    /// Queued actions pass through to the form, which ignores them all:
    /// nothing changes.
    pub fn update(&mut self, action: Action) -> (r: Option<Action>)
        requires
            old(self).wf(),
        ensures
            final(self).wf(),
            r is None,
            form_update_frame(old(self).0, final(self).0),
    {
        self.0.update(action)
    }
}

/// A canonical numeral always has at least one digit.
proof fn lemma_numeral_len_positive(n: int)
    ensures
        numeral_of(n).len() > 0,
{
    if n <= 0 {
    } else if n < 10 {
    } else {
    }
}

/// A parsed time spells back to the very characters it was parsed from.
proof fn lemma_time_round(t: Time, f: FormField)
    requires
        f is Time,
        t.wf(),
        f matches FormField::Time(tf) ==> t.0 == spec_hours(tf) && t.1
            == spec_minutes(tf),
    ensures
        time_chars(t.0 as int, t.1 as int) == field_value(f),
{
}

} // verus!
