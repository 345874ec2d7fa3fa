//! Ordering Gregorian periods by their earliest and latest instants.
use vstd::prelude::*;
use std::cmp::Ordering;
use crate::civil::{day_number, is_valid_date, lemma_date_order, year_in_range, EPOCH_DAY_NUMBER};
use crate::clock::{reversed_order, then_order, ClockTime};
use crate::dates::day_number_of;
use crate::gregorian::{
    lemma_ymd_dates_agree, opt_or, ordinal_day, GregorianProleptic, time_earliest,
    time_latest,
};
use crate::weekday::Weekday;

verus! {

/// Three-way comparison of two integers.
pub open spec fn order_int(a: int, b: int) -> Ordering {
    if a < b {
        Ordering::Less
    } else if a == b {
        Ordering::Equal
    } else {
        Ordering::Greater
    }
}

/// `g` is a `Ymd` value naming one valid second of a supported date.
pub open spec fn is_resolved_instant(g: GregorianProleptic) -> bool {
    match g {
        GregorianProleptic::Ymd { year, month: Some(m0), day: Some(d0), time: Some(t) } => {
            &&& year_in_range(year as int)
            &&& is_valid_date(year as int, m0 + 1, d0 + 1)
            &&& t.valid()
            &&& t.fully_resolved()
        },
        _ => false,
    }
}

/// The number of seconds of an instant since the start of day number 0.
pub open spec fn instant_key(g: GregorianProleptic) -> int {
    match g {
        GregorianProleptic::Ymd { year, month: Some(m0), day: Some(d0), time: Some(t) } => {
            let minute: int = match t.minute {
                Some(m) => m as int,
                None => 0,
            };
            let second: int = match t.second {
                Some(s) => s as int,
                None => 0,
            };
            day_number(year as int, m0 + 1, d0 + 1) * 86400 + t.hour * 3600 + minute * 60 + second
        },
        _ => 0,
    }
}

/// The seconds of an instant since the start of day number 0.
pub(crate) fn instant_seconds(g: &GregorianProleptic) -> (r: i64)
    requires
        is_resolved_instant(*g),
    ensures
        r == instant_key(*g),
{
    match g {
        GregorianProleptic::Ymd { year, month: Some(m0), day: Some(d0), time: Some(t) } => {
            let n = day_number_of(*year, *m0 + 1, *d0 + 1).unwrap();
            let minute: i64 = match t.minute {
                Some(m) => m as i64,
                None => 0,
            };
            let second: i64 = match t.second {
                Some(s) => s as i64,
                None => 0,
            };
            (n as i64) * 86400 + (t.hour as i64) * 3600 + minute * 60 + second
        },
        _ => 0,
    }
}

impl GregorianProleptic {
    /// The earliest and latest points of the period exist and are valid
    /// instants of supported dates.
    pub open spec fn comparable(self) -> bool {
        &&& self.earliest_defined()
        &&& self.latest_defined()
        &&& is_resolved_instant(self.earliest_point())
        &&& is_resolved_instant(self.latest_point())
    }

    /// Periods are ordered by their earliest instants, then by their latest.
    pub open spec fn period_order(self, other: GregorianProleptic) -> Ordering {
        then_order(
            order_int(instant_key(self.earliest_point()), instant_key(other.earliest_point())),
            order_int(instant_key(self.latest_point()), instant_key(other.latest_point())),
        )
    }

    /// Compares two periods by their earliest instants, then by their
    /// latest instants.
    pub fn compare(&self, other: &Self) -> (r: Ordering)
        requires
            self.comparable(),
            other.comparable(),
        ensures
            r == self.period_order(*other),
    {
        let a0 = instant_seconds(&self.earliest());
        let b0 = instant_seconds(&other.earliest());
        if a0 < b0 {
            return Ordering::Less;
        } else if a0 > b0 {
            return Ordering::Greater;
        }
        let a1 = instant_seconds(&self.latest());
        let b1 = instant_seconds(&other.latest());
        if a1 < b1 {
            Ordering::Less
        } else if a1 == b1 {
            Ordering::Equal
        } else {
            Ordering::Greater
        }
    }

    /// The two periods have the same earliest and the same latest instant.
    pub fn same_period(&self, other: &Self) -> (r: bool)
        requires
            self.comparable(),
            other.comparable(),
        ensures
            r == (self.period_order(*other) == Ordering::Equal),
    {
        match self.compare(other) {
            Ordering::Equal => true,
            _ => false,
        }
    }
}

/// The seconds of the day of a resolved clock period.
pub open spec fn clock_key(t: ClockTime) -> int {
    let minute: int = match t.minute {
        Some(m) => m as int,
        None => 0,
    };
    let second: int = match t.second {
        Some(s) => s as int,
        None => 0,
    };
    t.hour * 3600 + minute * 60 + second
}

/// The first second of a clock period is not after its last second.
proof fn lemma_clock_span(t: Option<ClockTime>)
    requires
        time_earliest(t).valid(),
        time_latest(t).valid(),
    ensures
        0 <= clock_key(time_earliest(t)) <= clock_key(time_latest(t)) < 86400,
{
}

/// The earliest instant of a period is not after its latest instant.
pub proof fn lemma_earliest_not_after_latest(
    g: GregorianProleptic,
    e: GregorianProleptic,
    l: GregorianProleptic,
)
    requires
        g.is_earliest_form(e),
        g.is_latest_form(l),
        is_resolved_instant(e),
        is_resolved_instant(l),
    ensures
        instant_key(e) <= instant_key(l),
{
    match g {
        GregorianProleptic::Ymd { time, .. } => {
            lemma_clock_span(time);
        },
        GregorianProleptic::Yo { time, .. } => {
            lemma_clock_span(time);
        },
        GregorianProleptic::Ywd { time, .. } => {
            lemma_clock_span(time);
        },
        GregorianProleptic::CeDay { time, .. } => {
            lemma_clock_span(time);
        },
        GregorianProleptic::EpochDay { time, .. } => {
            lemma_clock_span(time);
        },
        GregorianProleptic::Ymwn { time, .. } => {
            lemma_clock_span(time);
        },
    }
}

/// For comparable periods, the earliest instant is not after the latest.
pub proof fn lemma_comparable_span(g: GregorianProleptic)
    requires
        g.comparable(),
        exists|e: GregorianProleptic| g.is_earliest_form(e),
        exists|l: GregorianProleptic| g.is_latest_form(l),
    ensures
        instant_key(g.earliest_point()) <= instant_key(g.latest_point()),
{
    lemma_earliest_not_after_latest(g, g.earliest_point(), g.latest_point());
}

/// `a` is not after `b` on a clock, by hour, then minute, then second.
pub open spec fn clock_not_after(a: ClockTime, b: ClockTime) -> bool {
    let (ma, mb) = (opt_or(a.minute, 0u8), opt_or(b.minute, 0u8));
    let (sa, sb) = (opt_or(a.second, 0u8), opt_or(b.second, 0u8));
    a.hour < b.hour || (a.hour == b.hour && (ma < mb || (ma == mb && sa <= sb)))
}

/// `a` and `b` are `Ymd` date-times with every component present, and `a`
/// is not after `b` in calendar order: by year, then month, then day, then
/// clock time.
pub open spec fn date_time_not_after(a: GregorianProleptic, b: GregorianProleptic) -> bool {
    match (a, b) {
        (
            GregorianProleptic::Ymd { year: y1, month: Some(m1), day: Some(d1), time: Some(t1) },
            GregorianProleptic::Ymd { year: y2, month: Some(m2), day: Some(d2), time: Some(t2) },
        ) => {
            &&& t1.fully_resolved()
            &&& t2.fully_resolved()
            &&& (y1 < y2 || (y1 == y2 && (m1 < m2 || (m1 == m2 && (d1 < d2 || (d1 == d2
                && clock_not_after(t1, t2)))))))
        },
        _ => false,
    }
}

/// The first second of a clock period is not after its last second, and
/// both are resolved to the second.
proof fn lemma_clock_not_after(t: Option<ClockTime>)
    ensures
        time_earliest(t).fully_resolved(),
        time_latest(t).fully_resolved(),
        clock_not_after(time_earliest(t), time_latest(t)),
{
}

/// Two dates of days `n1 < n2` are in calendar order.
proof fn lemma_days_in_order(a: GregorianProleptic, b: GregorianProleptic, n1: int, n2: int)
    requires
        a matches GregorianProleptic::Ymd { year, month: Some(m), day: Some(d), .. }
            && crate::civil::is_date_of_day(year as int, m as int, d as int, n1),
        b matches GregorianProleptic::Ymd { year, month: Some(m), day: Some(d), .. }
            && crate::civil::is_date_of_day(year as int, m as int, d as int, n2),
        n1 < n2,
    ensures
        a->Ymd_year < b->Ymd_year || (a->Ymd_year == b->Ymd_year && (a->Ymd_month.unwrap()
            < b->Ymd_month.unwrap() || (a->Ymd_month == b->Ymd_month && a->Ymd_day.unwrap()
            < b->Ymd_day.unwrap()))),
{
    let (y1, m1, d1) = (a->Ymd_year as int, a->Ymd_month.unwrap() + 1, a->Ymd_day.unwrap() + 1);
    let (y2, m2, d2) = (b->Ymd_year as int, b->Ymd_month.unwrap() + 1, b->Ymd_day.unwrap() + 1);
    if y2 < y1 || (y1 == y2 && (m2 < m1 || (m1 == m2 && d2 < d1))) {
        lemma_date_order(y2, m2, d2, y1, m1, d1);
    }
}

/// A period's earliest point is never after its latest point: wherever
/// both are defined they are `Ymd` date-times resolved to the second, in
/// calendar order.
pub proof fn lemma_earliest_not_after_latest_in_calendar(
    g: GregorianProleptic,
    e: GregorianProleptic,
    l: GregorianProleptic,
)
    requires
        g.earliest_defined(),
        g.latest_defined(),
        g.is_earliest_form(e),
        g.is_latest_form(l),
    ensures
        date_time_not_after(e, l),
{
    match g {
        GregorianProleptic::Ymd { time, .. } => {
            lemma_clock_not_after(time);
        },
        GregorianProleptic::Yo { year, ordinal, time } => {
            lemma_clock_not_after(time);
            lemma_ymd_dates_agree(e, l, ordinal_day(year as int, ordinal as int));
        },
        GregorianProleptic::Ywd { year, week, weekday, time } => {
            lemma_clock_not_after(time);
            match weekday {
                Some(wd) => {
                    lemma_ymd_dates_agree(
                        e,
                        l,
                        crate::civil::iso_week_day(year as int, week + 1, wd.index()),
                    );
                },
                None => {
                    lemma_days_in_order(
                        e,
                        l,
                        crate::civil::iso_week_day(year as int, week + 1, Weekday::Mon.index()),
                        crate::civil::iso_week_day(year as int, week + 1, Weekday::Sun.index()),
                    );
                },
            }
        },
        GregorianProleptic::CeDay { days, time } => {
            lemma_clock_not_after(time);
            lemma_ymd_dates_agree(e, l, days as int);
        },
        GregorianProleptic::EpochDay { days, time } => {
            lemma_clock_not_after(time);
            lemma_ymd_dates_agree(e, l, days + EPOCH_DAY_NUMBER);
        },
        GregorianProleptic::Ymwn { time, .. } => {
            lemma_clock_not_after(time);
        },
    }
}

/// The instant key follows the calendar: of two instants, the one earlier
/// by year, then month, then day, then clock time has the smaller key, and
/// only equal instants have equal keys.
pub proof fn lemma_instant_key_calendar_order(a: GregorianProleptic, b: GregorianProleptic)
    requires
        is_resolved_instant(a),
        is_resolved_instant(b),
    ensures
        (instant_key(a) < instant_key(b)) <==> (date_time_not_after(a, b) && a != b),
        (instant_key(a) == instant_key(b)) <==> (a == b),
{
    let (ya, ma, da, ta) = (a->Ymd_year as int, a->Ymd_month.unwrap() + 1, a->Ymd_day.unwrap()
        + 1, a->Ymd_time.unwrap());
    let (yb, mb, db, tb) = (b->Ymd_year as int, b->Ymd_month.unwrap() + 1, b->Ymd_day.unwrap()
        + 1, b->Ymd_time.unwrap());
    let na = day_number(ya, ma, da);
    let nb = day_number(yb, mb, db);
    let ca = clock_key(ta);
    let cb = clock_key(tb);
    assert(0 <= ca < 86400 && 0 <= cb < 86400);
    assert(instant_key(a) == na * 86400 + ca);
    assert(instant_key(b) == nb * 86400 + cb);
    if ya < yb || (ya == yb && (ma < mb || (ma == mb && da < db))) {
        lemma_date_order(ya, ma, da, yb, mb, db);
        assert(na * 86400 + 86400 <= nb * 86400);
    } else if yb < ya || (ya == yb && (mb < ma || (ma == mb && db < da))) {
        lemma_date_order(yb, mb, db, ya, ma, da);
        assert(nb * 86400 + 86400 <= na * 86400);
    } else {
        assert(ya == yb && ma == mb && da == db);
        if ta != tb {
            assert(ta.hour != tb.hour || ta.minute.unwrap() != tb.minute.unwrap()
                || ta.second.unwrap() != tb.second.unwrap());
        }
    }
}

/// The period order compares earliest points in calendar order, then latest
/// points: a comparable period comes first when its earliest point is before
/// the other's, or the earliest points are the same and its latest point is
/// before the other's.
pub proof fn lemma_period_order_calendar(a: GregorianProleptic, b: GregorianProleptic)
    requires
        a.comparable(),
        b.comparable(),
    ensures
        (a.period_order(b) == Ordering::Less) <==> ((date_time_not_after(
            a.earliest_point(),
            b.earliest_point(),
        ) && a.earliest_point() != b.earliest_point()) || (a.earliest_point()
            == b.earliest_point() && date_time_not_after(a.latest_point(), b.latest_point())
            && a.latest_point() != b.latest_point())),
        (a.period_order(b) == Ordering::Equal) <==> (a.earliest_point() == b.earliest_point()
            && a.latest_point() == b.latest_point()),
{
    lemma_instant_key_calendar_order(a.earliest_point(), b.earliest_point());
    lemma_instant_key_calendar_order(a.latest_point(), b.latest_point());
}

/// The period ordering is reflexive.
pub proof fn lemma_period_order_reflexive(a: GregorianProleptic)
    ensures
        a.period_order(a) == Ordering::Equal,
{
}

/// Swapping the operands reverses the period ordering.
pub proof fn lemma_period_order_antisymmetric(a: GregorianProleptic, b: GregorianProleptic)
    ensures
        b.period_order(a) == reversed_order(a.period_order(b)),
{
}

/// The period ordering is transitive.
pub proof fn lemma_period_order_transitive(
    a: GregorianProleptic,
    b: GregorianProleptic,
    c: GregorianProleptic,
)
    requires
        a.period_order(b) != Ordering::Greater,
        b.period_order(c) != Ordering::Greater,
    ensures
        a.period_order(c) != Ordering::Greater,
        a.period_order(b) == Ordering::Less ==> a.period_order(c) == Ordering::Less,
{
}

} // verus!
