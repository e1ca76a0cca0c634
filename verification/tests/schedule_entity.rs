use confsched::entities::schedule::Schedule;
use confsched::models::conference::{Conference, Week};
use confsched::models::time::Time;

fn conference(title: &str, start: &str) -> Conference {
    Conference {
        title: title.to_string(),
        link: String::new(),
        start_time: Time::parse(start).unwrap(),
        end_time: Time::parse(start).unwrap(),
        password: None,
        autostart_permission: false,
        week: Week::Every,
    }
}

fn day_is_sorted(schedule: &Schedule, day: usize) -> bool {
    let conferences = schedule.get_day(day);
    conferences.windows(2).all(|w| {
        (w[0].start_time.hours(), w[0].start_time.minutes())
            <= (w[1].start_time.hours(), w[1].start_time.minutes())
    })
}

#[test]
fn empty_schedule_adds_two_and_sorts_them() {
    let mut schedule = Schedule::new("schedule".to_string());
    schedule.add_conference(1, conference("Standup", "09:00"));
    schedule.add_conference(1, conference("Retro", "08:00"));

    let day = schedule.get_day(1);
    let titles: Vec<&str> = day.iter().map(|c| c.title.as_str()).collect();
    assert_eq!(titles, ["Retro", "Standup"]);
    assert_eq!(schedule.get_conference_count_by_day(), [2, 0, 0, 0, 0, 0, 0]);
}

#[test]
fn days_stay_sorted_under_adds_and_updates() {
    let mut schedule = Schedule::new("schedule".to_string());
    for (title, start) in [
        ("a", "12:30"),
        ("b", "08:15"),
        ("c", "23:59"),
        ("d", "08:14"),
        ("e", "12:30"),
    ] {
        schedule.add_conference(3, conference(title, start));
        assert!(day_is_sorted(&schedule, 3));
    }
    schedule.update_conference(3, 0, conference("f", "22:00")).unwrap();
    assert!(day_is_sorted(&schedule, 3));
    schedule.update_conference(3, 4, conference("g", "00:01")).unwrap();
    assert!(day_is_sorted(&schedule, 3));
    assert_eq!(schedule.get_day(3).len(), 5);
}

#[test]
fn update_out_of_range_reports_not_found_and_changes_nothing() {
    let mut schedule = Schedule::new("schedule".to_string());
    schedule.add_conference(2, conference("only", "10:00"));

    let result = schedule.update_conference(2, 1, conference("other", "11:00"));
    assert_eq!(result, Err("Conference not found".to_string()));
    let day = schedule.get_day(2);
    assert_eq!(day.len(), 1);
    assert_eq!(day[0].title, "only");

    let empty_day = schedule.update_conference(5, 0, conference("other", "11:00"));
    assert!(empty_day.is_err());
    assert_eq!(schedule.get_day(5).len(), 0);
}

#[test]
fn update_resorts_by_new_start_time() {
    let mut schedule = Schedule::new("schedule".to_string());
    schedule.add_conference(1, conference("early", "08:00"));
    schedule.add_conference(1, conference("late", "20:00"));

    schedule.update_conference(1, 0, conference("now-latest", "21:00")).unwrap();
    let titles: Vec<&str> = schedule.get_day(1).iter().map(|c| c.title.as_str()).collect();
    assert_eq!(titles, ["late", "now-latest"]);
}

#[test]
fn remove_keeps_the_rest_in_order() {
    let mut schedule = Schedule::new("schedule".to_string());
    schedule.add_conference(7, conference("a", "08:00"));
    schedule.add_conference(7, conference("b", "09:00"));
    schedule.add_conference(7, conference("c", "10:00"));

    schedule.remove_conference(7, 1);
    let titles: Vec<&str> = schedule.get_day(7).iter().map(|c| c.title.as_str()).collect();
    assert_eq!(titles, ["a", "c"]);
    assert_eq!(schedule.get_conference_count_by_day(), [0, 0, 0, 0, 0, 0, 2]);
}

#[test]
fn days_are_independent() {
    let mut schedule = Schedule::new("week".to_string());
    schedule.add_conference(1, conference("mon", "09:00"));
    schedule.add_conference(7, conference("sun", "10:00"));
    assert_eq!(schedule.get_day(1)[0].title, "mon");
    assert_eq!(schedule.get_day(7)[0].title, "sun");
    assert_eq!(schedule.get_conference_count_by_day(), [1, 0, 0, 0, 0, 0, 1]);
    assert_eq!(schedule.name, "week");
}
