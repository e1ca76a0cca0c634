use confsched::action::{Action, Mode};
use confsched::app::{App, Effect, KeyBindings};
use confsched::entities::schedule::Schedule;
use confsched::event::{Event, Key};
use confsched::models::settings::Settings;
use confsched::persistence::schedule::{JsonScheduleLoader, ScheduleLoader};
use confsched::persistence::settings::{JsonSettingsLoader, SettingsLoader};
use confsched::ui_pages::home::ActivePage;
use confsched::ui_pages::schedule::Mode as PageMode;

fn fresh_app() -> App {
    let mut bindings = KeyBindings::new();
    bindings.bind(Mode::Schedule, vec![Key::Char('q')], Action::Quit);
    bindings.bind(Mode::Schedule, vec![Key::Char('g'), Key::Char('g')], Action::Help);
    App::new(bindings, Schedule::new("schedule".to_string()), Settings::default())
}

#[test]
fn multi_key_sequence_fires_on_the_second_key() {
    let mut app = fresh_app();

    app.handle_key_event(Key::Char('g'));
    assert_eq!(app.action_queue, Vec::<Action>::new());
    assert_eq!(app.last_tick_key_events, vec![Key::Char('g')]);

    app.handle_key_event(Key::Char('g'));
    assert_eq!(app.action_queue, vec![Action::Help]);
    assert_eq!(app.last_tick_key_events, Vec::<Key>::new());
}

#[test]
fn a_tick_between_the_keys_clears_the_pending_sequence() {
    let mut app = fresh_app();

    app.handle_key_event(Key::Char('g'));
    app.handle_events(Event::Tick);
    app.handle_actions();
    assert_eq!(app.last_tick_key_events, Vec::<Key>::new());

    app.handle_key_event(Key::Char('g'));
    assert_eq!(app.action_queue, Vec::<Action>::new());
    assert_eq!(app.last_tick_key_events, vec![Key::Char('g')]);
}

#[test]
fn single_key_binding_fires_at_once() {
    let mut app = fresh_app();
    app.handle_key_event(Key::Char('q'));
    assert_eq!(app.action_queue, vec![Action::Quit]);

    app.handle_actions();
    assert!(app.should_quit);
    assert_eq!(app.action_queue, Vec::<Action>::new());
}

#[test]
fn bindings_apply_per_mode() {
    let mut app = fresh_app();
    app.mode = Mode::Settings;
    app.handle_key_event(Key::Char('q'));
    assert_eq!(app.action_queue, Vec::<Action>::new());
    assert_eq!(app.last_tick_key_events, vec![Key::Char('q')]);
}

#[test]
fn drained_actions_produce_effects_in_order() {
    let mut app = fresh_app();
    app.push_action(Action::ClearScreen);
    app.push_action(Action::Resize(80, 24));
    app.push_action(Action::Render);
    let effects = app.handle_actions();
    assert_eq!(
        effects,
        vec![Effect::ClearScreen, Effect::Resize(80, 24), Effect::Render]
    );
}

#[test]
fn change_mode_updates_loop_and_pages() {
    let mut app = fresh_app();
    app.push_action(Action::ChangeMode(Mode::Settings));
    app.handle_actions();
    assert_eq!(app.mode, Mode::Settings);
    assert_eq!(app.home.active_page, ActivePage::Settings);

    app.push_action(Action::ChangeMode(Mode::Schedule));
    app.handle_actions();
    assert_eq!(app.mode, Mode::Schedule);
    assert_eq!(app.home.active_page, ActivePage::Schedule);
}

#[test]
fn suspend_and_resume_toggle_the_flag() {
    let mut app = fresh_app();
    app.push_action(Action::Suspend);
    app.handle_actions();
    assert!(app.should_suspend);
    app.push_action(Action::Resume);
    app.push_action(Action::ClearScreen);
    let effects = app.handle_actions();
    assert!(!app.should_suspend);
    assert_eq!(effects, vec![Effect::ClearScreen]);
}

#[test]
fn adding_a_conference_through_the_page() {
    let mut app = fresh_app();

    // Open the add form, activate the title field and name the call.
    app.handle_events(Event::Key(Key::Char('+')));
    app.handle_actions();
    assert_eq!(app.mode, Mode::Edit);
    app.handle_events(Event::Key(Key::Enter));
    for c in "Standup".chars() {
        app.handle_events(Event::Key(Key::Char(c)));
    }
    // Escape commits the form and returns to the schedule.
    app.handle_events(Event::Key(Key::Esc));
    app.handle_actions();
    assert_eq!(app.mode, Mode::Schedule);

    let page = &app.home.schedule;
    assert!(matches!(page.mode, PageMode::View));
    let day = page.schedule.get_day(1);
    assert_eq!(day.len(), 1);
    assert_eq!(day[0].title, "Standup");
    assert_eq!(day[0].start_time.format(), "00:00");
}

#[test]
fn editing_the_selected_conference_through_the_page() {
    let mut app = fresh_app();
    app.handle_events(Event::Key(Key::Char('+')));
    app.handle_events(Event::Key(Key::Esc));
    app.handle_actions();

    // Edit the conference that now exists and rename it.
    app.handle_events(Event::Key(Key::Char('e')));
    app.handle_actions();
    assert_eq!(app.mode, Mode::Edit);
    app.handle_events(Event::Key(Key::Enter));
    app.handle_events(Event::Key(Key::Char('x')));
    app.handle_events(Event::Key(Key::Esc));
    app.handle_actions();

    let day = app.home.schedule.schedule.get_day(1);
    assert_eq!(day.len(), 1);
    assert_eq!(day[0].title, "x");
}

#[test]
fn editing_an_empty_day_is_ignored() {
    let mut app = fresh_app();
    app.handle_events(Event::Key(Key::Char('e')));
    assert!(matches!(app.home.schedule.mode, PageMode::View));
    assert_eq!(app.mode, Mode::Schedule);
}

#[test]
fn the_last_queued_mode_change_wins() {
    let mut app = fresh_app();
    app.push_action(Action::ChangeMode(Mode::Settings));
    app.push_action(Action::ChangeMode(Mode::Edit));
    app.push_action(Action::ChangeMode(Mode::Schedule));
    app.handle_actions();
    assert_eq!(app.mode, Mode::Schedule);
    // The edit mode change left the page shown alone, so the schedule
    // page is still on screen.
    assert_eq!(app.home.active_page, ActivePage::Schedule);
}

#[test]
fn the_page_hands_out_the_selected_link() {
    let mut app = fresh_app();
    assert_eq!(app.home.schedule.selected_link(), None);

    // Add a conference, then give it a link through the edit form.
    app.handle_events(Event::Key(Key::Char('+')));
    app.handle_events(Event::Key(Key::Esc));
    app.handle_actions();
    app.handle_events(Event::Key(Key::Char('e')));
    app.handle_actions();
    app.handle_events(Event::Key(Key::Down));
    app.handle_events(Event::Key(Key::Down));
    app.handle_events(Event::Key(Key::Enter));
    for c in "https://example.invalid/call".chars() {
        app.handle_events(Event::Key(Key::Char(c)));
    }
    app.handle_events(Event::Key(Key::Esc));
    app.handle_actions();

    assert_eq!(
        app.home.schedule.selected_link(),
        Some("https://example.invalid/call".to_string())
    );
}

#[test]
fn loaders_hand_back_usable_defaults() {
    let mut schedule_loader = JsonScheduleLoader::new("./schedule");
    let stored = schedule_loader.load("schedule");
    assert_eq!(stored.as_array().len(), 7);
    assert!(stored.as_array().iter().all(|day| day.is_empty()));
    schedule_loader.save(stored);
    schedule_loader.delete("schedule");

    let mut settings_loader = JsonSettingsLoader::new("./cfg");
    let settings = settings_loader.load();
    assert_eq!(settings, Settings::default());
    settings_loader.save(settings);
}
