//! Days of the week.
use vstd::prelude::*;
use crate::text::eq_ignore_ascii_case_spec;

verus! {

/// A day of the week.
#[derive(Debug, Clone, Copy, PartialEq, Eq, Structural)]
pub enum Weekday {
    /// Monday.
    Mon,
    /// Tuesday.
    Tue,
    /// Wednesday.
    Wed,
    /// Thursday.
    Thu,
    /// Friday.
    Fri,
    /// Saturday.
    Sat,
    /// Sunday.
    Sun,
}

impl Weekday {
    /// The number of days since Monday: 0 for Monday through 6 for Sunday.
    pub open spec fn index(self) -> int {
        match self {
            Weekday::Mon => 0,
            Weekday::Tue => 1,
            Weekday::Wed => 2,
            Weekday::Thu => 3,
            Weekday::Fri => 4,
            Weekday::Sat => 5,
            Weekday::Sun => 6,
        }
    }

    /// The number of days since Monday: 0 for Monday through 6 for Sunday.
    pub fn num_days_from_monday(&self) -> (r: u32)
        ensures
            r == self.index(),
    {
        match self {
            Weekday::Mon => 0,
            Weekday::Tue => 1,
            Weekday::Wed => 2,
            Weekday::Thu => 3,
            Weekday::Fri => 4,
            Weekday::Sat => 5,
            Weekday::Sun => 6,
        }
    }
}

impl Weekday {
    /// The lower-case three-letter name of the day.
    pub open spec fn short_name(self) -> Seq<char> {
        match self {
            Weekday::Mon => seq!['m', 'o', 'n'],
            Weekday::Tue => seq!['t', 'u', 'e'],
            Weekday::Wed => seq!['w', 'e', 'd'],
            Weekday::Thu => seq!['t', 'h', 'u'],
            Weekday::Fri => seq!['f', 'r', 'i'],
            Weekday::Sat => seq!['s', 'a', 't'],
            Weekday::Sun => seq!['s', 'u', 'n'],
        }
    }

    /// The lower-case full English name of the day.
    pub open spec fn long_name(self) -> Seq<char> {
        match self {
            Weekday::Mon => seq!['m', 'o', 'n', 'd', 'a', 'y'],
            Weekday::Tue => seq!['t', 'u', 'e', 's', 'd', 'a', 'y'],
            Weekday::Wed => seq!['w', 'e', 'd', 'n', 'e', 's', 'd', 'a', 'y'],
            Weekday::Thu => seq!['t', 'h', 'u', 'r', 's', 'd', 'a', 'y'],
            Weekday::Fri => seq!['f', 'r', 'i', 'd', 'a', 'y'],
            Weekday::Sat => seq!['s', 'a', 't', 'u', 'r', 'd', 'a', 'y'],
            Weekday::Sun => seq!['s', 'u', 'n', 'd', 'a', 'y'],
        }
    }

    /// `s` names the day: its short or full name, in any ASCII case.
    pub open spec fn is_named_by(self, s: Seq<char>) -> bool {
        eq_ignore_ascii_case_spec(s, self.short_name()) || eq_ignore_ascii_case_spec(
            s,
            self.long_name(),
        )
    }
}

/// The text does not name a day of the week.
#[derive(Debug, Clone, Copy, PartialEq, Eq, Structural)]
pub struct ParseWeekdayError;

/// `str::parse::<chrono::Weekday>`: the day that `s` names. Claimed, as the
/// `chrono` source shows: a day exactly when `s` is a day's three-letter or
/// full English name in any ASCII case, and then that day.
#[verifier::external_body]
pub(crate) fn parse_weekday(s: &str) -> (r: Result<Weekday, ParseWeekdayError>)
    ensures
        r matches Ok(w) ==> w.is_named_by(s@),
        r is Err ==> forall|w: Weekday| !w.is_named_by(s@),
{
    match s.parse::<chrono::Weekday>() {
        Ok(chrono::Weekday::Mon) => Ok(Weekday::Mon),
        Ok(chrono::Weekday::Tue) => Ok(Weekday::Tue),
        Ok(chrono::Weekday::Wed) => Ok(Weekday::Wed),
        Ok(chrono::Weekday::Thu) => Ok(Weekday::Thu),
        Ok(chrono::Weekday::Fri) => Ok(Weekday::Fri),
        Ok(chrono::Weekday::Sat) => Ok(Weekday::Sat),
        Ok(chrono::Weekday::Sun) => Ok(Weekday::Sun),
        Err(_) => Err(ParseWeekdayError),
    }
}

} // verus!
