//! A conference record and its recurrence week.

use vstd::prelude::*;
use crate::models::time::Time;
use crate::utils::str_eq_chars;

verus! {

/// On which weeks a conference recurs.
#[derive(Clone, Copy, Debug, PartialEq, Eq, Structural)]
pub enum Week {
    Every,
    Even,
    Odd,
}

impl Week {
    /// The spellings accepted by [`Week::parse`], in declaration order.
    pub fn variants() -> (r: [&'static str; 3])
        ensures
            r@.len() == 3,
            r@[0]@ == "Every"@,
            r@[1]@ == "Even"@,
            r@[2]@ == "Odd"@,
    {
        ["Every", "Even", "Odd"]
    }

    pub fn as_str(&self) -> (r: &'static str)
        ensures
            *self == Week::Every ==> r@ == "Every"@,
            *self == Week::Even ==> r@ == "Even"@,
            *self == Week::Odd ==> r@ == "Odd"@,
    {
        match self {
            Week::Every => "Every",
            Week::Even => "Even",
            Week::Odd => "Odd",
        }
    }

    /// Reads a week from its spelling; anything but the three exact
    /// spellings is refused.
    pub fn parse(s: &str) -> (r: Result<Week, &'static str>)
        ensures
            s@ == "Every"@ ==> r == Result::<Week, &'static str>::Ok(Week::Every),
            s@ == "Even"@ ==> r == Result::<Week, &'static str>::Ok(Week::Even),
            s@ == "Odd"@ ==> r == Result::<Week, &'static str>::Ok(Week::Odd),
            r is Ok <==> (s@ == "Every"@ || s@ == "Even"@ || s@ == "Odd"@),
            r matches Err(e) ==> e@ == "Invalid week: must be 'Every', 'Even', or 'Odd'"@,
    {
        proof {
            reveal_strlit("Every");
            reveal_strlit("Even");
            reveal_strlit("Odd");
            assert("Every"@.len() == 5);
            assert("Even"@.len() == 4);
            assert("Odd"@.len() == 3);
        }
        if str_eq_chars(s, "Every") {
            Ok(Week::Every)
        } else if str_eq_chars(s, "Even") {
            Ok(Week::Even)
        } else if str_eq_chars(s, "Odd") {
            Ok(Week::Odd)
        } else {
            Err("Invalid week: must be 'Every', 'Even', or 'Odd'")
        }
    }
}

impl Default for Week {
    fn default() -> (r: Week)
        ensures
            r == Week::Every,
    {
        Week::Every
    }
}

/// One scheduled conference call.  It has no identity of its own: within a
/// schedule it is named by its day and its position in that day.
#[derive(Debug)]
pub struct Conference {
    pub title: String,
    pub link: String,
    pub start_time: Time,
    pub end_time: Time,
    pub password: Option<String>,
    pub autostart_permission: bool,
    pub week: Week,
}

impl Conference {
    /// Both times are in range.
    pub open spec fn wf(&self) -> bool {
        self.start_time.wf() && self.end_time.wf()
    }
}

impl Clone for Conference {
    fn clone(&self) -> (r: Self)
        ensures
            r == *self,
    {
        Conference {
            title: self.title.clone(),
            link: self.link.clone(),
            start_time: self.start_time,
            end_time: self.end_time,
            password: match &self.password {
                Some(p) => Some(p.clone()),
                None => None,
            },
            autostart_permission: self.autostart_permission,
            week: self.week,
        }
    }
}

impl Default for Conference {
    /// An empty record: blank texts, midnight times, no password, no
    /// autostart, recurring every week.
    fn default() -> (r: Conference)
        ensures
            r.title@.len() == 0,
            r.link@.len() == 0,
            r.start_time == (Time(0, 0)),
            r.end_time == (Time(0, 0)),
            r.password is None,
            !r.autostart_permission,
            r.week == Week::Every,
            r.wf(),
    {
        Conference {
            title: String::new(),
            link: String::new(),
            start_time: Time(0, 0),
            end_time: Time(0, 0),
            password: None,
            autostart_permission: false,
            week: Week::Every,
        }
    }
}

} // verus!
