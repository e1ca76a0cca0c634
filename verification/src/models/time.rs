//! A validated time of day: an `(hour, minute)` pair that only ever holds
//! an hour below 24 and a minute below 60, read from and written back to
//! the zero-padded `HH:MM` form.

use vstd::prelude::*;
use vstd::string::{StrSliceExecFns, StringExecFns};
use crate::digits::{digit_char, digit_of, is_digit, char_digit};

verus! {

/// Five characters shaped like a time: two digits, a colon, two digits.
pub open spec fn time_shape_ok(s: Seq<char>) -> bool {
    &&& s.len() == 5
    &&& is_digit(s[0])
    &&& is_digit(s[1])
    &&& s[2] == ':'
    &&& is_digit(s[3])
    &&& is_digit(s[4])
}

/// The hour named by the first two characters.
pub open spec fn hours_of(s: Seq<char>) -> int {
    digit_of(s[0]) * 10 + digit_of(s[1])
}

/// The minute named by the last two characters.
pub open spec fn minutes_of(s: Seq<char>) -> int {
    digit_of(s[3]) * 10 + digit_of(s[4])
}

/// A string that names a time: the `HH:MM` shape with both components in
/// range.
pub open spec fn valid_time_chars(s: Seq<char>) -> bool {
    time_shape_ok(s) && hours_of(s) <= 23 && minutes_of(s) <= 59
}

/// The zero-padded `HH:MM` spelling of an hour and a minute.
pub open spec fn time_chars(h: int, m: int) -> Seq<char> {
    seq![digit_char(h / 10), digit_char(h % 10), ':', digit_char(m / 10), digit_char(m % 10)]
}

/// An hour and a minute, both always in range.
#[derive(Clone, Copy, Debug, PartialEq, Eq, Structural)]
pub struct Time(pub u8, pub u8);

impl Time {
    /// Hour below 24, minute below 60.
    pub open spec fn wf(&self) -> bool {
        self.0 <= 23 && self.1 <= 59
    }

    /// Reads a time from a string.  Only the exact zero-padded `HH:MM`
    /// shape is accepted; each refusal names what was wrong.
    pub fn parse(time: &str) -> (r: Result<Time, &'static str>)
        ensures
            r is Ok <==> valid_time_chars(time@),
            r matches Ok(t) ==> t.wf() && t.0 == hours_of(time@) && t.1 == minutes_of(time@),
            !time_shape_ok(time@) ==> (r matches Err(e)
                && e@ == "Invalid time format: must be HH:MM"@),
            time_shape_ok(time@) && hours_of(time@) > 23 ==> (r matches Err(e)
                && e@ == "Invalid hour: must be between 0 and 23"@),
            time_shape_ok(time@) && hours_of(time@) <= 23 && minutes_of(time@) > 59 ==> (
            r matches Err(e) && e@ == "Invalid minute: must be between 0 and 59"@),
    {
        if time.unicode_len() != 5 {
            return Err("Invalid time format: must be HH:MM");
        }
        if time.get_char(2) != ':' {
            return Err("Invalid time format: must be HH:MM");
        }
        let (h0, h1, m0, m1) = match (
            char_digit(time.get_char(0)),
            char_digit(time.get_char(1)),
            char_digit(time.get_char(3)),
            char_digit(time.get_char(4)),
        ) {
            (Some(h0), Some(h1), Some(m0), Some(m1)) => (h0, h1, m0, m1),
            _ => {
                return Err("Invalid time format: must be HH:MM");
            },
        };
        let hours = h0 * 10 + h1;
        if hours > 23 {
            return Err("Invalid hour: must be between 0 and 23");
        }
        let minutes = m0 * 10 + m1;
        if minutes > 59 {
            return Err("Invalid minute: must be between 0 and 59");
        }
        Ok(Time(hours, minutes))
    }

    pub fn hours(&self) -> (h: u8)
        ensures
            h == self.0,
    {
        self.0
    }

    pub fn minutes(&self) -> (m: u8)
        ensures
            m == self.1,
    {
        self.1
    }

    /// Writes the time back in the zero-padded `HH:MM` form.
    pub fn format(&self) -> (r: String)
        requires
            self.wf(),
        ensures
            r@ == time_chars(self.0 as int, self.1 as int),
            valid_time_chars(r@),
            hours_of(r@) == self.0,
            minutes_of(r@) == self.1,
    {
        proof {
            reveal_strlit(":");
            lemma_format_valid(self.0 as int, self.1 as int);
        }
        let mut r = String::new();
        r.append(digit_str(self.0 / 10));
        r.append(digit_str(self.0 % 10));
        r.append(":");
        r.append(digit_str(self.1 / 10));
        r.append(digit_str(self.1 % 10));
        proof {
            assert(r@ =~= time_chars(self.0 as int, self.1 as int));
        }
        r
    }
}

impl Default for Time {
    /// Midnight.
    fn default() -> (r: Time)
        ensures
            r == (Time(0, 0)),
    {
        Time(0, 0)
    }
}

/// The single-character string for one digit.
fn digit_str(d: u8) -> (r: &'static str)
    requires
        d <= 9,
    ensures
        r@ =~= seq![digit_char(d as int)],
{
    proof {
        reveal_strlit("0");
        reveal_strlit("1");
        reveal_strlit("2");
        reveal_strlit("3");
        reveal_strlit("4");
        reveal_strlit("5");
        reveal_strlit("6");
        reveal_strlit("7");
        reveal_strlit("8");
        reveal_strlit("9");
    }
    if d == 0 {
        "0"
    } else if d == 1 {
        "1"
    } else if d == 2 {
        "2"
    } else if d == 3 {
        "3"
    } else if d == 4 {
        "4"
    } else if d == 5 {
        "5"
    } else if d == 6 {
        "6"
    } else if d == 7 {
        "7"
    } else if d == 8 {
        "8"
    } else {
        "9"
    }
}

/// The `HH:MM` spelling of an in-range time is itself a valid time string
/// naming the same hour and minute.
pub proof fn lemma_format_valid(h: int, m: int)
    requires
        0 <= h <= 23,
        0 <= m <= 59,
    ensures
        valid_time_chars(time_chars(h, m)),
        hours_of(time_chars(h, m)) == h,
        minutes_of(time_chars(h, m)) == m,
{
    let s = time_chars(h, m);
    assert(digit_of(digit_char(h / 10)) == h / 10);
    assert(digit_of(digit_char(h % 10)) == h % 10);
    assert(digit_of(digit_char(m / 10)) == m / 10);
    assert(digit_of(digit_char(m % 10)) == m % 10);
    assert(h == (h / 10) * 10 + h % 10);
    assert(m == (m / 10) * 10 + m % 10);
}

/// Reading a valid zero-padded time string and writing the time back
/// restores the string: the two operations are inverse on the strings
/// `parse` accepts.
pub proof fn lemma_time_round_trip(s: Seq<char>)
    requires
        valid_time_chars(s),
    ensures
        time_chars(hours_of(s), minutes_of(s)) == s,
{
    let h = hours_of(s);
    let m = minutes_of(s);
    assert(h / 10 == digit_of(s[0]) && h % 10 == digit_of(s[1])) by {
        assert(0 <= digit_of(s[1]) < 10);
        assert(h == digit_of(s[0]) * 10 + digit_of(s[1]));
    }
    assert(m / 10 == digit_of(s[3]) && m % 10 == digit_of(s[4])) by {
        assert(0 <= digit_of(s[4]) < 10);
        assert(m == digit_of(s[3]) * 10 + digit_of(s[4]));
    }
    assert(time_chars(h, m) =~= s);
}

} // verus!
