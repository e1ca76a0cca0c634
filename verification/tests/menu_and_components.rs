use confsched::components::conference_list::ConferenceList;
use confsched::components::schedule::Schedule as WeekView;
use confsched::components::settings::Settings as SettingsView;
use confsched::event::Key;
use confsched::menu::{Menu, MenuOption, MenuOptionAction, MenuSelection};
use confsched::models::conference::{Conference, Week};
use confsched::models::schedule::Schedule as ScheduleModel;
use confsched::models::settings::Settings;
use confsched::models::time::Time;
use confsched::ui_components::conference_list::ConferenceList as UiConferenceList;
use confsched::ui_pages::settings::SettingsPage;

fn conference(title: &str, link: &str) -> Conference {
    Conference {
        title: title.to_string(),
        link: link.to_string(),
        start_time: Time::parse("09:00").unwrap(),
        end_time: Time::parse("10:00").unwrap(),
        password: None,
        autostart_permission: false,
        week: Week::Every,
    }
}

#[test]
fn menu_selection_follows_the_typed_number() {
    let mut submenu: Menu<u32> = Menu::new("more");
    submenu.add_option("deep", MenuOptionAction::Action(7));

    let mut menu: Menu<u32> = Menu::new("main");
    menu.add_option("first", MenuOptionAction::Action(1));
    menu.add_option("nested", MenuOptionAction::SubMenu(submenu));
    menu.add_option("leave", MenuOptionAction::Exit);

    assert_eq!(menu.select(0), MenuSelection::Close);
    assert_eq!(menu.select(1), MenuSelection::Run(0));
    assert_eq!(menu.select(2), MenuSelection::Descend(1));
    assert_eq!(menu.select(3), MenuSelection::Close);
    assert_eq!(menu.select(4), MenuSelection::Invalid);

    assert_eq!(menu.command(0), Some(&1));
    assert_eq!(menu.command(1), None);
    let nested = menu.submenu(1).unwrap();
    assert_eq!(nested.select(1), MenuSelection::Run(0));
    assert_eq!(nested.command(0), Some(&7));
    assert!(menu.submenu(0).is_none());

    let first: &MenuOption<u32> = &menu.options[0];
    assert_eq!(first.text, "first");
}

#[test]
fn conference_list_scrolls_and_hands_out_the_link() {
    let items = vec![
        conference("a", "https://example.invalid/a"),
        conference("b", "https://example.invalid/b"),
    ];
    let mut list = ConferenceList::new(items);
    assert_eq!(list.handle_key_event(Key::Down), None);
    assert_eq!(
        list.handle_key_event(Key::Enter),
        Some("https://example.invalid/b".to_string())
    );
    assert_eq!(list.handle_key_event(Key::Up), None);
    assert_eq!(
        list.handle_key_event(Key::Enter),
        Some("https://example.invalid/a".to_string())
    );

    let mut empty = ConferenceList::new(Vec::new());
    assert_eq!(empty.handle_key_event(Key::Enter), None);
}

#[test]
fn ui_conference_list_behaves_the_same() {
    let items = vec![conference("only", "https://example.invalid/only")];
    let mut list = UiConferenceList::new(items);
    assert_eq!(
        list.handle_key_event(Key::Enter),
        Some("https://example.invalid/only".to_string())
    );
    assert_eq!(list.handle_key_event(Key::Char('x')), None);
}

#[test]
fn week_view_routes_keys_to_the_selected_day() {
    let mut model = ScheduleModel::new();
    model.0[1].push(conference("tue", "https://example.invalid/tue"));
    let mut view = WeekView::new(model);

    // Move to Tuesday; the right arrow also reaches that day's list,
    // which ignores it.
    assert_eq!(view.handle_key_event(Key::Right), None);
    assert_eq!(view.day_selector.selected_day, 1);
    assert_eq!(
        view.handle_key_event(Key::Enter),
        Some("https://example.invalid/tue".to_string())
    );
}

#[test]
fn settings_views_cycle_over_three_entries() {
    let mut view = SettingsView::new(Settings::default());
    view.handle_key_event(Key::Up);
    assert_eq!(view.selector.index, 2);
    view.handle_key_event(Key::Down);
    assert_eq!(view.selector.index, 0);

    let mut page = SettingsPage::new(Settings { autostart: true, early_join_minutes: 5 });
    page.handle_key_event(Key::Down);
    assert_eq!(page.selector.index, 1);
    assert!(page.settings.autostart);
    assert_eq!(page.settings.early_join_minutes, 5);
}
