//! Equality of Gregorian periods: two periods are equal when they have the
//! same earliest and the same latest instant.
use vstd::prelude::*;
use vstd::std_specs::cmp::PartialEqSpecImpl;
use std::cmp::Ordering;
use crate::civil::{MAX_YEAR, MIN_YEAR};
use crate::clock::ClockTime;
use crate::dates::{
    date_from_day_number, date_from_epoch_days, date_from_iso_week, date_from_weekday_of_month,
    date_from_yo, day_number_of,
};
use crate::gregorian::{iso_week_exists, GregorianProleptic};
use crate::period_order::{is_resolved_instant, lemma_period_order_calendar};
use crate::weekday::Weekday;

verus! {

/// Whether ISO week `week` (0-based) of ISO year `year` exists and its day
/// `wd` is in range.
fn iso_week_exists_check(year: i32, week: u32, wd: Weekday) -> (r: bool)
    ensures
        r == iso_week_exists(year as int, week as int, wd),
{
    if year == i32::MIN || year == i32::MAX || week == u32::MAX {
        return false;
    }
    date_from_iso_week(year, week + 1, wd).is_some()
}

/// Whether the period can be converted to `Ymd` form.
fn normalizable_check(g: &GregorianProleptic) -> (r: bool)
    ensures
        r == g.normalizable(),
{
    match *g {
        GregorianProleptic::Ymd { .. } => true,
        GregorianProleptic::Yo { year, ordinal, .. } => date_from_yo(year, ordinal).is_some(),
        GregorianProleptic::Ywd { year, week, weekday, .. } => match weekday {
            Some(wd) => iso_week_exists_check(year, week, wd),
            None => true,
        },
        GregorianProleptic::CeDay { days, .. } => date_from_day_number(days).is_some(),
        GregorianProleptic::EpochDay { days, .. } => date_from_epoch_days(days).is_some(),
        GregorianProleptic::Ymwn { year, month, weekday, n, .. } => date_from_weekday_of_month(
            year,
            month,
            weekday,
            n,
        ).is_some(),
    }
}

/// Whether the earliest point of the period is defined.
fn earliest_defined_check(g: &GregorianProleptic) -> (r: bool)
    ensures
        r == g.earliest_defined(),
{
    if !normalizable_check(g) {
        return false;
    }
    match *g {
        GregorianProleptic::Ywd { year, week, weekday: None, .. } => iso_week_exists_check(
            year,
            week,
            Weekday::Mon,
        ),
        _ => true,
    }
}

/// Whether the latest point of the period is defined.
fn latest_defined_check(g: &GregorianProleptic) -> (r: bool)
    ensures
        r == g.latest_defined(),
{
    if !normalizable_check(g) {
        return false;
    }
    match *g {
        GregorianProleptic::Ywd { year, week, weekday: None, .. } => iso_week_exists_check(
            year,
            week,
            Weekday::Sun,
        ),
        GregorianProleptic::Ymd { year, month, day: None, .. } => {
            let m = match month {
                Some(m) => m,
                None => 11,
            };
            MIN_YEAR <= year && year <= MAX_YEAR && m < 12
        },
        _ => true,
    }
}

/// Whether `g` is a `Ymd` value naming one valid second of a supported date.
fn resolved_instant_check(g: &GregorianProleptic) -> (r: bool)
    ensures
        r == is_resolved_instant(*g),
{
    match *g {
        GregorianProleptic::Ymd { year, month: Some(m0), day: Some(d0), time: Some(t) } => {
            let clock_ok = t.hour < 24 && match (t.minute, t.second) {
                (Some(m), Some(s)) => m < 60 && s < 60,
                _ => false,
            };
            clock_ok && m0 < 12 && d0 < 31 && day_number_of(year, m0 + 1, d0 + 1).is_some()
        },
        _ => false,
    }
}

/// Whether both optional values are equal.
fn same_option_u32(a: Option<u32>, b: Option<u32>) -> (r: bool)
    ensures
        r == (a == b),
{
    match (a, b) {
        (Some(x), Some(y)) => x == y,
        (None, None) => true,
        _ => false,
    }
}

/// Whether both optional clock periods are equal.
fn same_option_clock(a: Option<ClockTime>, b: Option<ClockTime>) -> (r: bool)
    ensures
        r == (a == b),
{
    match (a, b) {
        (Some(x), Some(y)) => x == y,
        (None, None) => true,
        _ => false,
    }
}

/// Whether both optional weekdays are equal.
fn same_option_weekday(a: Option<Weekday>, b: Option<Weekday>) -> (r: bool)
    ensures
        r == (a == b),
{
    match (a, b) {
        (Some(x), Some(y)) => x == y,
        (None, None) => true,
        _ => false,
    }
}

/// Whether the two values are written alike, field by field.
fn same_fields(a: &GregorianProleptic, b: &GregorianProleptic) -> (r: bool)
    ensures
        r == (*a == *b),
{
    match (*a, *b) {
        (
            GregorianProleptic::Ymd { year: y1, month: m1, day: d1, time: t1 },
            GregorianProleptic::Ymd { year: y2, month: m2, day: d2, time: t2 },
        ) => y1 == y2 && same_option_u32(m1, m2) && same_option_u32(d1, d2) && same_option_clock(
            t1,
            t2,
        ),
        (
            GregorianProleptic::Yo { year: y1, ordinal: o1, time: t1 },
            GregorianProleptic::Yo { year: y2, ordinal: o2, time: t2 },
        ) => y1 == y2 && o1 == o2 && same_option_clock(t1, t2),
        (
            GregorianProleptic::Ywd { year: y1, week: w1, weekday: d1, time: t1 },
            GregorianProleptic::Ywd { year: y2, week: w2, weekday: d2, time: t2 },
        ) => y1 == y2 && w1 == w2 && same_option_weekday(d1, d2) && same_option_clock(t1, t2),
        (
            GregorianProleptic::CeDay { days: n1, time: t1 },
            GregorianProleptic::CeDay { days: n2, time: t2 },
        ) => n1 == n2 && same_option_clock(t1, t2),
        (
            GregorianProleptic::EpochDay { days: n1, time: t1 },
            GregorianProleptic::EpochDay { days: n2, time: t2 },
        ) => n1 == n2 && same_option_clock(t1, t2),
        (
            GregorianProleptic::Ymwn { year: y1, month: m1, weekday: d1, n: n1, time: t1 },
            GregorianProleptic::Ymwn { year: y2, month: m2, weekday: d2, n: n2, time: t2 },
        ) => y1 == y2 && m1 == m2 && d1 == d2 && n1 == n2 && same_option_clock(t1, t2),
        _ => false,
    }
}

impl GregorianProleptic {
    /// Whether the period's earliest and latest points exist and are valid
    /// instants of supported dates, so that it can be compared.
    pub fn is_comparable(&self) -> (r: bool)
        ensures
            r == self.comparable(),
    {
        if !earliest_defined_check(self) || !latest_defined_check(self) {
            return false;
        }
        let e = self.earliest();
        let l = self.latest();
        resolved_instant_check(&e) && resolved_instant_check(&l)
    }

    /// Equality as `==` decides it: comparable periods are equal when they
    /// have the same earliest and the same latest instant; any other two
    /// values are equal when they are written alike.
    pub open spec fn period_eq(self, other: GregorianProleptic) -> bool {
        if self.comparable() && other.comparable() {
            self.period_order(other) == Ordering::Equal
        } else {
            self == other
        }
    }
}

/// Comparable periods are `==` exactly when they begin at the same instant
/// and end at the same instant.
pub proof fn lemma_period_eq_same_points(a: GregorianProleptic, b: GregorianProleptic)
    requires
        a.comparable(),
        b.comparable(),
    ensures
        a.period_eq(b) <==> (a.earliest_point() == b.earliest_point() && a.latest_point()
            == b.latest_point()),
{
    lemma_period_order_calendar(a, b);
}

impl PartialEq for GregorianProleptic {
    fn eq(&self, other: &Self) -> (r: bool) {
        if self.is_comparable() && other.is_comparable() {
            self.same_period(other)
        } else {
            same_fields(self, other)
        }
    }
}

impl PartialEqSpecImpl for GregorianProleptic {
    open spec fn obeys_eq_spec() -> bool {
        true
    }

    open spec fn eq_spec(&self, other: &Self) -> bool {
        self.period_eq(*other)
    }
}

} // verus!
