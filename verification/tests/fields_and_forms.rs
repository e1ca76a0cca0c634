use confsched::event::Key;
use confsched::models::conference::{Conference, Week};
use confsched::models::time::Time;
use confsched::ui_components::input_field::InputField;
use confsched::ui_fields::base::BorderStyle;
use confsched::ui_fields::carousel::CarouselInputField;
use confsched::ui_fields::handler::{BaseInputHandler, Validation};
use confsched::ui_fields::int_field::IntInputHandler;
use confsched::ui_fields::string::StrInputField;
use confsched::ui_fields::time::TimeInputField;
use confsched::ui_forms::conference_edit::ConferenceEditForm;
use confsched::action::Action;

fn type_str(handler: &mut BaseInputHandler, text: &str) {
    for c in text.chars() {
        handler.handle_key_event(Key::Char(c));
    }
}

#[test]
fn text_buffer_edits_at_the_cursor() {
    let mut h = BaseInputHandler::new(None, 10, Validation::Any);
    type_str(&mut h, "held");
    assert_eq!(h.value(), "held");
    h.handle_key_event(Key::Left);
    h.handle_key_event(Key::Left);
    h.handle_key_event(Key::Char('l'));
    assert_eq!(h.value(), "helld");
    h.handle_key_event(Key::Right);
    h.handle_key_event(Key::Char('o'));
    assert_eq!(h.value(), "hellod");
    h.handle_key_event(Key::Backspace);
    h.handle_key_event(Key::Backspace);
    assert_eq!(h.value(), "held");
    assert_eq!(h.cursor_position(), 3);
}

#[test]
fn text_buffer_respects_its_cap() {
    let mut h = BaseInputHandler::new(Some("abc".to_string()), 4, Validation::Any);
    type_str(&mut h, "defg");
    assert_eq!(h.value(), "abcd");
    assert_eq!(h.len(), 4);
}

#[test]
fn initial_text_is_clipped_to_the_cap() {
    let h = BaseInputHandler::new(Some("abcdef".to_string()), 3, Validation::Any);
    assert_eq!(h.value(), "abc");
    assert_eq!(h.cursor_position(), 3);
}

#[test]
fn numeric_buffer_rejects_out_of_range_keystrokes() {
    let mut h = IntInputHandler::new(None, 23);
    h.handle_key_event(Key::Char('2'));
    assert_eq!(h.value(), "2");
    h.handle_key_event(Key::Char('9'));
    assert_eq!(h.value(), "2");
    h.handle_key_event(Key::Char('3'));
    assert_eq!(h.value(), "23");
    h.handle_key_event(Key::Char('1'));
    assert_eq!(h.value(), "23");
}

#[test]
fn numeric_buffer_rejects_non_digits_and_reads_empty_as_zero() {
    let mut h = IntInputHandler::new(None, 59);
    h.handle_key_event(Key::Char('x'));
    assert_eq!(h.value(), "0");
    h.handle_key_event(Key::Char('+'));
    assert_eq!(h.value(), "0");
    h.handle_key_event(Key::Char('7'));
    assert_eq!(h.value(), "7");
    h.handle_key_event(Key::Backspace);
    assert_eq!(h.value(), "0");
    assert_eq!(h.len(), 0);
}

#[test]
fn time_field_combines_both_buffers() {
    let mut f = TimeInputField::new(None, Some(Time::parse("09:30").unwrap()));
    assert_eq!(f.get_value(), "09:30");
    f.handle_key_event(Key::Backspace);
    f.handle_key_event(Key::Backspace);
    f.handle_key_event(Key::Char('1'));
    f.handle_key_event(Key::Char('7'));
    assert_eq!(f.get_value(), "17:30");
    f.handle_key_event(Key::Right);
    f.handle_key_event(Key::Backspace);
    f.handle_key_event(Key::Backspace);
    f.handle_key_event(Key::Char('5'));
    assert_eq!(f.get_value(), "17:05");
}

#[test]
fn empty_time_field_reads_as_midnight() {
    let f = TimeInputField::new(None, None);
    assert_eq!(f.get_value(), "00:00");
    let (h, m) = f.get_parsed_input();
    assert_eq!((h, m), (0, 0));
}

#[test]
fn carousel_cycles_through_its_options() {
    let options = vec!["Deny".to_string(), "Allow".to_string()];
    let mut c = CarouselInputField::new(None, options, 0);
    assert_eq!(c.get_value(), "Deny");
    c.handle_key_event(Key::Right);
    assert_eq!(c.get_value(), "Allow");
    c.handle_key_event(Key::Up);
    assert_eq!(c.get_value(), "Deny");
    c.handle_key_event(Key::Left);
    assert_eq!(c.get_value(), "Allow");
    c.set_cursor_visibility(true);
    assert_eq!(c.get_value(), "Allow");
}

#[test]
fn string_field_reports_its_text() {
    let mut f = StrInputField::new(Some("Title".to_string()), 50, Some("Standup".to_string()));
    assert_eq!(f.get_value(), "Standup");
    f.handle_key_event(Key::Char('s'));
    assert_eq!(f.get_value(), "Standups");
    f.borders(BorderStyle::Active);
    assert_eq!(f.0.border_style, BorderStyle::Active);
}

fn sample_conference() -> Conference {
    Conference {
        title: "Standup".to_string(),
        link: "https://example.invalid/standup".to_string(),
        start_time: Time::parse("09:00").unwrap(),
        end_time: Time::parse("09:30").unwrap(),
        password: Some("SECRET-REDACTED".to_string()),
        autostart_permission: true,
        week: Week::Odd,
    }
}

#[test]
fn conference_form_round_trips_an_unedited_record() {
    let form = ConferenceEditForm::new(sample_conference());
    let back = form.get_conference();
    assert_eq!(back.title, "Standup");
    assert_eq!(back.link, "https://example.invalid/standup");
    assert_eq!(back.start_time.format(), "09:00");
    assert_eq!(back.end_time.format(), "09:30");
    assert_eq!(back.password, Some("SECRET-REDACTED".to_string()));
    assert!(back.autostart_permission);
    assert_eq!(back.week.as_str(), "Every");
}

#[test]
fn form_browses_and_edits_per_the_state_machine() {
    let mut form = ConferenceEditForm::new(sample_conference());
    assert!(!form.0.is_selected_field_active);

    // Browsing: arrows move the selection; Enter activates.
    form.handle_key_event(Key::Down);
    assert_eq!(form.0.selector.selected(), (1, 0));
    form.handle_key_event(Key::Right);
    assert_eq!(form.0.selector.selected(), (1, 1));
    form.handle_key_event(Key::Enter);
    assert!(form.0.is_selected_field_active);

    // Editing: navigation keys are swallowed by the focused field.
    form.handle_key_event(Key::Down);
    assert_eq!(form.0.selector.selected(), (1, 1));

    // Escape returns to browsing without moving the selection.
    form.handle_key_event(Key::Esc);
    assert!(!form.0.is_selected_field_active);
    assert_eq!(form.0.selector.selected(), (1, 1));
}

#[test]
fn editing_a_field_changes_only_that_field() {
    let mut form = ConferenceEditForm::new(sample_conference());
    form.handle_key_event(Key::Enter);
    form.handle_key_event(Key::Char('!'));
    form.handle_key_event(Key::Esc);
    let back = form.get_conference();
    assert_eq!(back.title, "Standup!");
    assert_eq!(back.link, "https://example.invalid/standup");
    assert_eq!(back.start_time.format(), "09:00");
}

#[test]
fn empty_password_comes_back_as_none() {
    let mut conference = sample_conference();
    conference.password = None;
    let form = ConferenceEditForm::new(conference);
    let back = form.get_conference();
    assert_eq!(back.password, None);
    assert!(back.autostart_permission);
}

#[test]
fn blinking_field_advances_on_ticks_only() {
    let mut f = InputField::new("notes".to_string(), Some("hi".to_string()));
    assert_eq!(f.ticks_with_cursor, 0);
    assert!(f.cursor_shown());
    for _ in 0..4 {
        f.update(Action::Tick);
    }
    assert_eq!(f.ticks_with_cursor, 4);
    assert!(!f.cursor_shown());
    f.update(Action::Render);
    assert_eq!(f.ticks_with_cursor, 4);
    for _ in 0..2 {
        f.update(Action::Tick);
    }
    assert_eq!(f.ticks_with_cursor, 0);

    f.handle_key_event(Key::Char('!'));
    assert_eq!(f.text, vec!['h', 'i', '!', ' ']);
    f.handle_key_event(Key::Backspace);
    assert_eq!(f.text, vec!['h', 'i', ' ']);
}

#[test]
fn scroll_offset_follows_the_cursor() {
    let mut f = StrInputField::new(None, 40, Some("abcdefghijklmnop".to_string()));
    // The cursor starts after the 16th character; a 10-wide box must
    // scroll so the cursor is in view, then give up the spare column.
    f.0.recalculate_padding(10);
    assert_eq!(f.0.left_padding, 6);
    // Moving home pulls the window all the way back.
    for _ in 0..16 {
        f.0.handle_key_event(Key::Left);
    }
    f.0.recalculate_padding(10);
    assert_eq!(f.0.left_padding, 0);
    // A box wider than the text needs no offset at all.
    f.0.recalculate_padding(40);
    assert_eq!(f.0.left_padding, 0);
}
