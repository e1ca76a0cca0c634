use confsched::digits::{char_digit, digit_to_char, numeral_chars, parse_bounded};
use confsched::models::conference::Week;
use confsched::models::time::Time;
use confsched::utils::{center_text, chars_string, str_chars, str_eq_chars};

#[test]
fn valid_times_round_trip() {
    for s in ["00:00", "09:05", "12:34", "23:59", "07:00"] {
        let t = Time::parse(s).unwrap();
        assert_eq!(t.format(), s);
    }
}

#[test]
fn hour_out_of_range_is_refused() {
    assert_eq!(
        Time::parse("24:00"),
        Err("Invalid hour: must be between 0 and 23")
    );
}

#[test]
fn minute_out_of_range_is_refused() {
    assert_eq!(
        Time::parse("12:60"),
        Err("Invalid minute: must be between 0 and 59")
    );
}

#[test]
fn malformed_times_are_refused() {
    for s in ["", "12", "1234", "12:3", "1:23", "ab:cd", "12-34", "12:345", ":1234"] {
        assert_eq!(Time::parse(s), Err("Invalid time format: must be HH:MM"));
    }
}

#[test]
fn parse_reads_both_components() {
    let t = Time::parse("08:45").unwrap();
    assert_eq!(t.hours(), 8);
    assert_eq!(t.minutes(), 45);
}

#[test]
fn week_spellings_round_trip() {
    for s in Week::variants() {
        assert_eq!(Week::parse(s).unwrap().as_str(), s);
    }
}

#[test]
fn unknown_week_is_refused() {
    assert_eq!(
        Week::parse("every"),
        Err("Invalid week: must be 'Every', 'Even', or 'Odd'")
    );
}

#[test]
fn digits_parse_within_bound() {
    assert_eq!(parse_bounded(&vec!['2', '3'], 23), Some(23));
    assert_eq!(parse_bounded(&vec!['0', '9'], 23), Some(9));
    assert_eq!(parse_bounded(&vec!['2', '4'], 23), None);
    assert_eq!(parse_bounded(&vec![], 23), None);
    assert_eq!(parse_bounded(&vec!['1', 'x'], 23), None);
    assert_eq!(parse_bounded(&vec!['9', '9', '9', '9', '9', '9', '9', '9', '9', '9'], u32::MAX), None);
}

#[test]
fn numerals_spell_their_number() {
    assert_eq!(numeral_chars(0), vec!['0']);
    assert_eq!(numeral_chars(7), vec!['7']);
    assert_eq!(numeral_chars(23), vec!['2', '3']);
    assert_eq!(numeral_chars(1059), vec!['1', '0', '5', '9']);
}

#[test]
fn digit_characters_convert_both_ways() {
    assert_eq!(char_digit('7'), Some(7));
    assert_eq!(char_digit('a'), None);
    assert_eq!(digit_to_char(4), '4');
}

#[test]
fn center_text_pads_both_sides() {
    assert_eq!(center_text("ab", 6, ' '), "  ab  ");
    assert_eq!(center_text("ab", 5, '-'), "-ab--");
    assert_eq!(center_text("ab", 2, '*'), "ab");
}

#[test]
fn string_character_helpers_agree() {
    let chars = str_chars("hello");
    assert_eq!(chars, vec!['h', 'e', 'l', 'l', 'o']);
    assert_eq!(chars_string(&chars), "hello");
    assert!(str_eq_chars("abc", "abc"));
    assert!(!str_eq_chars("abc", "abd"));
    assert!(!str_eq_chars("abc", "ab"));
}
