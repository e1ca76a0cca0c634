use confsched::components::day_selector::DaySelector;
use confsched::components::selector::Selector;
use confsched::event::Key;
use confsched::ui_components::selector::Selector as UiSelector;
use confsched::ui_components::selector_2d::Selector2D;

#[test]
fn next_then_prev_restores_index() {
    for length in 2u64..6 {
        for start in 0..length {
            let mut s = Selector::new(length);
            for _ in 0..start {
                s.next();
            }
            let before = s.index;
            s.next();
            s.prev();
            assert_eq!(s.index, before);
        }
    }
}

#[test]
fn short_lists_do_not_move() {
    let mut empty = Selector::new(0);
    empty.next();
    empty.prev();
    assert_eq!(empty.index, 0);

    let mut single = Selector::new(1);
    single.next();
    assert_eq!(single.index, 0);
    single.prev();
    assert_eq!(single.index, 0);
}

#[test]
fn selector_wraps_both_ways() {
    let mut s = Selector::new(3);
    s.prev();
    assert_eq!(s.index, 2);
    s.next();
    assert_eq!(s.index, 0);
    s.next();
    s.next();
    s.next();
    assert_eq!(s.index, 0);
}

#[test]
fn ui_selector_starts_where_asked() {
    let mut s = UiSelector::new(4, 2);
    assert_eq!(s.index, 2);
    s.next();
    assert_eq!(s.index, 3);
    s.next();
    assert_eq!(s.index, 0);
    s.prev();
    assert_eq!(s.index, 3);
}

#[test]
fn column_clamps_when_moving_down_into_shorter_rows() {
    let mut s = Selector2D::new(vec![3, 1, 2]);
    s.move_right();
    s.move_right();
    assert_eq!(s.selected(), (0, 2));
    s.move_down();
    assert_eq!(s.selected(), (1, 0));
    s.move_down();
    assert_eq!(s.selected(), (2, 0));
}

#[test]
fn row_wraps_and_column_wraps_within_row() {
    let mut s = Selector2D::new(vec![2, 3]);
    s.move_up();
    assert_eq!(s.selected(), (1, 0));
    s.move_left();
    assert_eq!(s.selected(), (1, 2));
    s.move_right();
    assert_eq!(s.selected(), (1, 0));
    s.move_down();
    assert_eq!(s.selected(), (0, 0));
}

#[test]
fn empty_row_pins_column_to_zero() {
    let mut s = Selector2D::new(vec![2, 0]);
    s.move_right();
    assert_eq!(s.selected(), (0, 1));
    s.move_down();
    assert_eq!(s.selected(), (1, 0));
}

#[test]
fn day_selector_wraps_over_the_week() {
    let mut d = DaySelector::new();
    d.handle_key_event(Key::Left);
    assert_eq!(d.selected_day, 6);
    d.handle_key_event(Key::Right);
    assert_eq!(d.selected_day, 0);
    d.handle_key_event(Key::Right);
    assert_eq!(d.selected_day, 1);
    d.handle_key_event(Key::Enter);
    assert_eq!(d.selected_day, 1);
}
