//! Periods of the proleptic Gregorian calendar.
use vstd::prelude::*;
use crate::civil::{
    day_in_range, day_number, days_in_month, days_in_year, is_date_of_day,
    iso_week_day, iso_weeks_in_year, lemma_day_number_injective, nth_weekday_of_month,
    year_in_range, EPOCH_DAY_NUMBER,
};
use crate::clock::{spec_day_end, spec_day_start, ClockTime};
use crate::dates::{
    date_from_day_number, date_from_epoch_days, date_from_iso_week, date_from_weekday_of_month,
    date_from_yo, month_length,
};
use crate::weekday::Weekday;

verus! {

/// A real-world time period in the proleptic Gregorian calendar.
///
/// Months and days of `Ymd` are 0-based; the ISO `week` of `Ywd` is 0-based.
///
/// Two periods are `==` when they have the same earliest and the same
/// latest instant (see `period_eq`); their order is `compare`.
#[derive(Debug, Clone, Copy, Eq)]
pub enum GregorianProleptic {
    /// The year, month, and day.
    Ymd {
        /// The year.
        year: i32,
        /// The 0-based index of the month within the year.
        month: Option<u32>,
        /// The 0-based index of the day within the month.
        day: Option<u32>,
        /// An optional clock time resolution.
        time: Option<ClockTime>,
    },
    /// The year and ordinal.
    Yo {
        /// The year.
        year: i32,
        /// The 1-based index of the day within the year.
        ordinal: u32,
        /// An optional clock time resolution.
        time: Option<ClockTime>,
    },
    /// The ISO week date: year, week number (0-based), day of week.
    Ywd {
        /// The ISO week-numbering year.
        year: i32,
        /// The 0-based index of the ISO week.
        week: u32,
        /// The day of the week.
        weekday: Option<Weekday>,
        /// An optional clock time resolution.
        time: Option<ClockTime>,
    },
    /// The day number, with 0001-01-01 as day 1.
    CeDay {
        /// The day number.
        days: i32,
        /// An optional clock time resolution.
        time: Option<ClockTime>,
    },
    /// The number of days since 1970-01-01.
    EpochDay {
        /// The number of days since the UNIX epoch.
        days: i32,
        /// An optional clock time resolution.
        time: Option<ClockTime>,
    },
    /// The year, month, weekday, and index of that weekday within the month.
    Ymwn {
        /// The year.
        year: i32,
        /// The month, counted from 1 when locating the weekday.
        month: u32,
        /// The day of the week.
        weekday: Weekday,
        /// The 1-based index of the weekday within the month.
        n: u8,
        /// An optional clock time resolution.
        time: Option<ClockTime>,
    },
}

/// The first second of an optional clock period (the whole day if absent).
pub open spec fn time_earliest(t: Option<ClockTime>) -> ClockTime {
    match t {
        Some(c) => c.spec_earliest(),
        None => spec_day_start(),
    }
}

/// The last second of an optional clock period (the whole day if absent).
pub open spec fn time_latest(t: Option<ClockTime>) -> ClockTime {
    match t {
        Some(c) => c.spec_latest(),
        None => spec_day_end(),
    }
}

/// `r` is the `Ymd` form of the date of day number `n`, at clock period `t`.
pub open spec fn is_ymd_of_day(r: GregorianProleptic, n: int, t: Option<ClockTime>) -> bool {
    r matches GregorianProleptic::Ymd { year, month: Some(m0), day: Some(d0), time } && time == t
        && is_date_of_day(year as int, m0 as int, d0 as int, n)
}

/// The day number of day `ordinal` (1-based) of `year`.
pub open spec fn ordinal_day(year: int, ordinal: int) -> int {
    day_number(year, 1, 1) + ordinal - 1
}

/// The ISO week `week` (0-based) of ISO year `year` exists and its weekday
/// `wd` is in range.
pub open spec fn iso_week_exists(year: int, week: int, wd: Weekday) -> bool {
    &&& i32::MIN < year < i32::MAX
    &&& 0 <= week < u32::MAX
    &&& 1 <= week + 1 <= iso_weeks_in_year(year)
    &&& day_in_range(iso_week_day(year, week + 1, wd.index()))
}

/// `o`'s value, or `d` when absent.
pub open spec fn opt_or<T>(o: Option<T>, d: T) -> T {
    match o {
        Some(x) => x,
        None => d,
    }
}

/// The first second of an optional clock period.
fn time_earliest_of(t: Option<ClockTime>) -> (r: ClockTime)
    ensures
        r == time_earliest(t),
{
    match t {
        Some(c) => c.earliest(),
        None => ClockTime::day_start(),
    }
}

/// The last second of an optional clock period.
fn time_latest_of(t: Option<ClockTime>) -> (r: ClockTime)
    ensures
        r == time_latest(t),
{
    match t {
        Some(c) => c.latest(),
        None => ClockTime::day_end(),
    }
}

impl GregorianProleptic {
    /// The period can be converted to `Ymd` form (or is a week without a
    /// weekday, which stays as it is).
    pub open spec fn normalizable(self) -> bool {
        match self {
            GregorianProleptic::Ymd { .. } => true,
            GregorianProleptic::Yo { year, ordinal, .. } => year_in_range(year as int) && 1
                <= ordinal <= days_in_year(year as int),
            GregorianProleptic::Ywd { year, week, weekday, .. } => match weekday {
                Some(wd) => iso_week_exists(year as int, week as int, wd),
                None => true,
            },
            GregorianProleptic::CeDay { days, .. } => day_in_range(days as int),
            GregorianProleptic::EpochDay { days, .. } => day_in_range(days + EPOCH_DAY_NUMBER),
            GregorianProleptic::Ymwn { year, month, weekday, n, .. } => n >= 1 && 1 <= month <= 12
                && year_in_range(year as int) && nth_weekday_of_month(
                year as int,
                month as int,
                weekday.index(),
                n as int,
            ) <= days_in_month(year as int, month as int),
        }
    }

    /// `r` is the `Ymd` form of the period (a week without weekday is kept).
    pub open spec fn is_normalized_form(self, r: GregorianProleptic) -> bool {
        match self {
            GregorianProleptic::Ymd { .. } => r == self,
            GregorianProleptic::Yo { year, ordinal, time } => is_ymd_of_day(
                r,
                ordinal_day(year as int, ordinal as int),
                time,
            ) && r->Ymd_year == year,
            GregorianProleptic::Ywd { year, week, weekday, time } => match weekday {
                Some(wd) => is_ymd_of_day(
                    r,
                    iso_week_day(year as int, week + 1, wd.index()),
                    time,
                ),
                None => r == self,
            },
            GregorianProleptic::CeDay { days, time } => is_ymd_of_day(r, days as int, time),
            GregorianProleptic::EpochDay { days, time } => is_ymd_of_day(
                r,
                days + EPOCH_DAY_NUMBER,
                time,
            ),
            GregorianProleptic::Ymwn { year, month, weekday, n, time } => r
                == GregorianProleptic::Ymd {
                year,
                month: Some(month),
                day: Some(
                    (nth_weekday_of_month(year as int, month as int, weekday.index(), n as int)
                        - 1) as u32,
                ),
                time,
            },
        }
    }

    /// Converts the calendar period into a `Ymd` form if possible, or `Ywd`
    /// otherwise (a week without a weekday).
    pub fn normalized(self) -> (r: Self)
        requires
            self.normalizable(),
        ensures
            self.is_normalized_form(r),
    {
        match self {
            GregorianProleptic::Ymd { year, month, day, time } => GregorianProleptic::Ymd {
                year,
                month,
                day,
                time,
            },
            GregorianProleptic::Yo { year, ordinal, time } => {
                let (y, m0, d0) = date_from_yo(year, ordinal).unwrap();
                GregorianProleptic::Ymd { year: y, month: Some(m0), day: Some(d0), time }
            },
            GregorianProleptic::Ywd { year, week, weekday, time } => match weekday {
                Some(wd) => {
                    let (y, m0, d0) = date_from_iso_week(year, week + 1, wd).unwrap();
                    GregorianProleptic::Ymd { year: y, month: Some(m0), day: Some(d0), time }
                },
                None => GregorianProleptic::Ywd { year, week, weekday, time },
            },
            GregorianProleptic::CeDay { days, time } => {
                let (y, m0, d0) = date_from_day_number(days).unwrap();
                GregorianProleptic::Ymd { year: y, month: Some(m0), day: Some(d0), time }
            },
            GregorianProleptic::EpochDay { days, time } => {
                let (y, m0, d0) = date_from_epoch_days(days).unwrap();
                GregorianProleptic::Ymd { year: y, month: Some(m0), day: Some(d0), time }
            },
            GregorianProleptic::Ymwn { year, month, weekday, n, time } => {
                let (_y, _m0, d0) = date_from_weekday_of_month(year, month, weekday, n).unwrap();
                GregorianProleptic::Ymd { year, month: Some(month), day: Some(d0), time }
            },
        }
    }
}

impl GregorianProleptic {
    /// The earliest point of the period is defined.
    pub open spec fn earliest_defined(self) -> bool {
        &&& self.normalizable()
        &&& (self matches GregorianProleptic::Ywd { year, week, weekday: None, .. }
            ==> iso_week_exists(year as int, week as int, Weekday::Mon))
    }

    /// The latest point of the period is defined.
    pub open spec fn latest_defined(self) -> bool {
        &&& self.normalizable()
        &&& (self matches GregorianProleptic::Ywd { year, week, weekday: None, .. }
            ==> iso_week_exists(year as int, week as int, Weekday::Sun))
        &&& (self matches GregorianProleptic::Ymd { year, month, day: None, .. } ==> year_in_range(
            year as int,
        ) && opt_or(month, 11) < 12)
    }

    /// `r` is the first second of the period, in `Ymd` form.
    pub open spec fn is_earliest_form(self, r: GregorianProleptic) -> bool {
        match self {
            GregorianProleptic::Ymd { year, month, day, time } => r == GregorianProleptic::Ymd {
                year,
                month: Some(opt_or(month, 0)),
                day: Some(opt_or(day, 0)),
                time: Some(time_earliest(time)),
            },
            GregorianProleptic::Yo { year, ordinal, time } => is_ymd_of_day(
                r,
                ordinal_day(year as int, ordinal as int),
                Some(time_earliest(time)),
            ) && r->Ymd_year == year,
            GregorianProleptic::Ywd { year, week, weekday, time } => is_ymd_of_day(
                r,
                iso_week_day(year as int, week + 1, opt_or(weekday, Weekday::Mon).index()),
                Some(time_earliest(time)),
            ),
            GregorianProleptic::CeDay { days, time } => is_ymd_of_day(
                r,
                days as int,
                Some(time_earliest(time)),
            ),
            GregorianProleptic::EpochDay { days, time } => is_ymd_of_day(
                r,
                days + EPOCH_DAY_NUMBER,
                Some(time_earliest(time)),
            ),
            GregorianProleptic::Ymwn { year, month, weekday, n, time } => r
                == GregorianProleptic::Ymd {
                year,
                month: Some(month),
                day: Some(
                    (nth_weekday_of_month(year as int, month as int, weekday.index(), n as int)
                        - 1) as u32,
                ),
                time: Some(time_earliest(time)),
            },
        }
    }

    /// `r` is the last second of the period, in `Ymd` form.
    pub open spec fn is_latest_form(self, r: GregorianProleptic) -> bool {
        match self {
            GregorianProleptic::Ymd { year, month, day, time } => {
                let m = opt_or(month, 11);
                r == GregorianProleptic::Ymd {
                    year,
                    month: Some(m),
                    day: Some(
                        match day {
                            Some(d) => d,
                            None => (days_in_month(year as int, m + 1) - 1) as u32,
                        },
                    ),
                    time: Some(time_latest(time)),
                }
            },
            GregorianProleptic::Yo { year, ordinal, time } => is_ymd_of_day(
                r,
                ordinal_day(year as int, ordinal as int),
                Some(time_latest(time)),
            ) && r->Ymd_year == year,
            GregorianProleptic::Ywd { year, week, weekday, time } => is_ymd_of_day(
                r,
                iso_week_day(year as int, week + 1, opt_or(weekday, Weekday::Sun).index()),
                Some(time_latest(time)),
            ),
            GregorianProleptic::CeDay { days, time } => is_ymd_of_day(
                r,
                days as int,
                Some(time_latest(time)),
            ),
            GregorianProleptic::EpochDay { days, time } => is_ymd_of_day(
                r,
                days + EPOCH_DAY_NUMBER,
                Some(time_latest(time)),
            ),
            GregorianProleptic::Ymwn { year, month, weekday, n, time } => r
                == GregorianProleptic::Ymd {
                year,
                month: Some(month),
                day: Some(
                    (nth_weekday_of_month(year as int, month as int, weekday.index(), n as int)
                        - 1) as u32,
                ),
                time: Some(time_latest(time)),
            },
        }
    }

    /// The first second of the period.
    pub open spec fn earliest_point(self) -> GregorianProleptic {
        choose|r: GregorianProleptic| self.is_earliest_form(r)
    }

    /// The last second of the period.
    pub open spec fn latest_point(self) -> GregorianProleptic {
        choose|r: GregorianProleptic| self.is_latest_form(r)
    }

    /// The earliest point of the calendar period, resolved to the second.
    pub fn earliest(&self) -> (r: Self)
        requires
            self.earliest_defined(),
        ensures
            self.is_earliest_form(r),
            r == self.earliest_point(),
    {
        let r = self.earliest_unique_form();
        proof {
            lemma_earliest_point(*self, r);
        }
        r
    }

    /// The latest point of the calendar period, resolved to the second.
    pub fn latest(&self) -> (r: Self)
        requires
            self.latest_defined(),
        ensures
            self.is_latest_form(r),
            r == self.latest_point(),
    {
        let r = self.latest_unique_form();
        proof {
            lemma_latest_point(*self, r);
        }
        r
    }

    /// The earliest point, computed through the `Ymd` form.
    fn earliest_unique_form(&self) -> (r: Self)
        requires
            self.earliest_defined(),
        ensures
            self.is_earliest_form(r),
    {
        match self.normalized() {
            GregorianProleptic::Ymd { year, month, day, time } => {
                let month = match month {
                    Some(m) => m,
                    None => 0,
                };
                let day = match day {
                    Some(d) => d,
                    None => 0,
                };
                GregorianProleptic::Ymd {
                    year,
                    month: Some(month),
                    day: Some(day),
                    time: Some(time_earliest_of(time)),
                }
            },
            GregorianProleptic::Ywd { year, week, weekday, time } => {
                let wd = match weekday {
                    Some(w) => w,
                    None => Weekday::Mon,
                };
                let (y, m0, d0) = date_from_iso_week(year, week + 1, wd).unwrap();
                GregorianProleptic::Ymd {
                    year: y,
                    month: Some(m0),
                    day: Some(d0),
                    time: Some(time_earliest_of(time)),
                }
            },
            _ => {
                proof {
                    assert(false);
                }
                *self
            },
        }
    }

    /// The latest point, computed through the `Ymd` form.
    fn latest_unique_form(&self) -> (r: Self)
        requires
            self.latest_defined(),
        ensures
            self.is_latest_form(r),
    {
        match self.normalized() {
            GregorianProleptic::Ymd { year, month, day, time } => {
                let month = match month {
                    Some(m) => m,
                    None => 11,
                };
                let day = match day {
                    Some(d) => d,
                    None => month_length(year, month + 1).unwrap() - 1,
                };
                GregorianProleptic::Ymd {
                    year,
                    month: Some(month),
                    day: Some(day),
                    time: Some(time_latest_of(time)),
                }
            },
            GregorianProleptic::Ywd { year, week, weekday, time } => {
                let wd = match weekday {
                    Some(w) => w,
                    None => Weekday::Sun,
                };
                let (y, m0, d0) = date_from_iso_week(year, week + 1, wd).unwrap();
                GregorianProleptic::Ymd {
                    year: y,
                    month: Some(m0),
                    day: Some(d0),
                    time: Some(time_latest_of(time)),
                }
            },
            _ => {
                proof {
                    assert(false);
                }
                *self
            },
        }
    }
}

/// Converting to `Ymd` form keeps the period: the normalized value has the
/// same earliest and latest points.
pub proof fn lemma_normalized_same_period(
    g: GregorianProleptic,
    n: GregorianProleptic,
    e: GregorianProleptic,
    l: GregorianProleptic,
)
    requires
        g.is_normalized_form(n),
        g.earliest_defined(),
        g.latest_defined(),
        g.is_earliest_form(e),
        g.is_latest_form(l),
    ensures
        n.earliest_defined(),
        n.latest_defined(),
        n.is_earliest_form(e),
        n.is_latest_form(l),
{
    match g {
        GregorianProleptic::Yo { year, ordinal, time } => {
            lemma_ymd_dates_agree(n, e, ordinal_day(year as int, ordinal as int));
            lemma_ymd_dates_agree(n, l, ordinal_day(year as int, ordinal as int));
        },
        GregorianProleptic::Ywd { year, week, weekday: Some(wd), time } => {
            lemma_ymd_dates_agree(n, e, iso_week_day(year as int, week + 1, wd.index()));
            lemma_ymd_dates_agree(n, l, iso_week_day(year as int, week + 1, wd.index()));
        },
        GregorianProleptic::CeDay { days, time } => {
            lemma_ymd_dates_agree(n, e, days as int);
            lemma_ymd_dates_agree(n, l, days as int);
        },
        GregorianProleptic::EpochDay { days, time } => {
            lemma_ymd_dates_agree(n, e, days + EPOCH_DAY_NUMBER);
            lemma_ymd_dates_agree(n, l, days + EPOCH_DAY_NUMBER);
        },
        _ => {},
    }
}

/// The earliest and latest points are instants: each is its own earliest
/// and latest point.
pub proof fn lemma_points_fixed(g: GregorianProleptic, e: GregorianProleptic, l: GregorianProleptic)
    requires
        g.is_earliest_form(e),
        g.is_latest_form(l),
    ensures
        e.earliest_defined(),
        e.latest_defined(),
        e.is_earliest_form(e),
        e.is_latest_form(e),
        l.earliest_defined(),
        l.latest_defined(),
        l.is_earliest_form(l),
        l.is_latest_form(l),
{
}

/// Two `Ymd` values that both name the date of day `n` agree on the date.
pub proof fn lemma_ymd_dates_agree(a: GregorianProleptic, b: GregorianProleptic, n: int)
    requires
        a is Ymd,
        b is Ymd,
        a->Ymd_month is Some,
        a->Ymd_day is Some,
        b->Ymd_month is Some,
        b->Ymd_day is Some,
        is_date_of_day(
            a->Ymd_year as int,
            a->Ymd_month.unwrap() as int,
            a->Ymd_day.unwrap() as int,
            n,
        ),
        is_date_of_day(
            b->Ymd_year as int,
            b->Ymd_month.unwrap() as int,
            b->Ymd_day.unwrap() as int,
            n,
        ),
    ensures
        a->Ymd_year == b->Ymd_year,
        a->Ymd_month == b->Ymd_month,
        a->Ymd_day == b->Ymd_day,
{
    lemma_day_number_injective(
        a->Ymd_year as int,
        a->Ymd_month.unwrap() + 1,
        a->Ymd_day.unwrap() + 1,
        b->Ymd_year as int,
        b->Ymd_month.unwrap() + 1,
        b->Ymd_day.unwrap() + 1,
    );
}

/// Two `Ymd` forms of the same day number and clock period are equal.
pub proof fn lemma_ymd_of_day_unique(
    r1: GregorianProleptic,
    r2: GregorianProleptic,
    n: int,
    t: Option<ClockTime>,
)
    requires
        is_ymd_of_day(r1, n, t),
        is_ymd_of_day(r2, n, t),
    ensures
        r1 == r2,
{
    lemma_day_number_injective(
        r1->Ymd_year as int,
        r1->Ymd_month.unwrap() + 1,
        r1->Ymd_day.unwrap() + 1,
        r2->Ymd_year as int,
        r2->Ymd_month.unwrap() + 1,
        r2->Ymd_day.unwrap() + 1,
    );
}

/// A period has one earliest point: the one its `earliest` form names.
pub proof fn lemma_earliest_point(g: GregorianProleptic, r: GregorianProleptic)
    requires
        g.is_earliest_form(r),
    ensures
        g.earliest_point() == r,
{
    let c = g.earliest_point();
    assert(g.is_earliest_form(c));
    match g {
        GregorianProleptic::Ymd { .. } => {},
        GregorianProleptic::Ymwn { .. } => {},
        GregorianProleptic::Yo { year, ordinal, time } => {
            lemma_ymd_of_day_unique(
                c,
                r,
                ordinal_day(year as int, ordinal as int),
                Some(time_earliest(time)),
            );
        },
        GregorianProleptic::Ywd { year, week, weekday, time } => {
            lemma_ymd_of_day_unique(
                c,
                r,
                iso_week_day(year as int, week + 1, opt_or(weekday, Weekday::Mon).index()),
                Some(time_earliest(time)),
            );
        },
        GregorianProleptic::CeDay { days, time } => {
            lemma_ymd_of_day_unique(c, r, days as int, Some(time_earliest(time)));
        },
        GregorianProleptic::EpochDay { days, time } => {
            lemma_ymd_of_day_unique(c, r, days + EPOCH_DAY_NUMBER, Some(time_earliest(time)));
        },
    }
}

/// A period has one latest point: the one its `latest` form names.
pub proof fn lemma_latest_point(g: GregorianProleptic, r: GregorianProleptic)
    requires
        g.is_latest_form(r),
    ensures
        g.latest_point() == r,
{
    let c = g.latest_point();
    assert(g.is_latest_form(c));
    match g {
        GregorianProleptic::Ymd { .. } => {},
        GregorianProleptic::Ymwn { .. } => {},
        GregorianProleptic::Yo { year, ordinal, time } => {
            lemma_ymd_of_day_unique(
                c,
                r,
                ordinal_day(year as int, ordinal as int),
                Some(time_latest(time)),
            );
        },
        GregorianProleptic::Ywd { year, week, weekday, time } => {
            lemma_ymd_of_day_unique(
                c,
                r,
                iso_week_day(year as int, week + 1, opt_or(weekday, Weekday::Sun).index()),
                Some(time_latest(time)),
            );
        },
        GregorianProleptic::CeDay { days, time } => {
            lemma_ymd_of_day_unique(c, r, days as int, Some(time_latest(time)));
        },
        GregorianProleptic::EpochDay { days, time } => {
            lemma_ymd_of_day_unique(c, r, days + EPOCH_DAY_NUMBER, Some(time_latest(time)));
        },
    }
}

} // verus!
