//! The proleptic Gregorian calendar, as mathematics.
//!
//! Dates are triples (year, month, day) with 1-based months and days. Each
//! date has a day number counted from 0001-01-01, which is day 1 (a Monday);
//! earlier dates have day numbers of 0 and below.
use vstd::prelude::*;

verus! {

/// The first year of the supported range of dates.
pub const MIN_YEAR: i32 = -262143;

/// The last year of the supported range of dates.
pub const MAX_YEAR: i32 = 262142;

/// The day number of 1970-01-01.
pub const EPOCH_DAY_NUMBER: i32 = 719163;

/// Leap years: multiples of 4, except multiples of 100 that are not
/// multiples of 400.
pub open spec fn is_leap_year(y: int) -> bool {
    y % 4 == 0 && (y % 100 != 0 || y % 400 == 0)
}

/// The number of days of year `y`.
pub open spec fn days_in_year(y: int) -> int {
    if is_leap_year(y) {
        366
    } else {
        365
    }
}

/// The number of days of month `m` (1 to 12) of year `y`.
pub open spec fn days_in_month(y: int, m: int) -> int {
    if m == 2 {
        if is_leap_year(y) {
            29
        } else {
            28
        }
    } else if m == 4 || m == 6 || m == 9 || m == 11 {
        30
    } else {
        31
    }
}

/// The number of days of year `y` before month `m` (1 to 12) begins.
pub open spec fn days_before_month(y: int, m: int) -> int {
    let leap: int = if is_leap_year(y) {
        1
    } else {
        0
    };
    if m <= 1 {
        0
    } else if m == 2 {
        31
    } else if m == 3 {
        59 + leap
    } else if m == 4 {
        90 + leap
    } else if m == 5 {
        120 + leap
    } else if m == 6 {
        151 + leap
    } else if m == 7 {
        181 + leap
    } else if m == 8 {
        212 + leap
    } else if m == 9 {
        243 + leap
    } else if m == 10 {
        273 + leap
    } else if m == 11 {
        304 + leap
    } else {
        334 + leap
    }
}

/// (y, m, d) names a day of the calendar.
pub open spec fn is_valid_date(y: int, m: int, d: int) -> bool {
    1 <= m <= 12 && 1 <= d <= days_in_month(y, m)
}

/// The number of days before year `y` begins, counted from 0001-01-01.
pub open spec fn days_before_year(y: int) -> int {
    let p = y - 1;
    365 * p + p / 4 - p / 100 + p / 400
}

/// The day number of (y, m, d); 0001-01-01 is day 1.
pub open spec fn day_number(y: int, m: int, d: int) -> int {
    days_before_year(y) + days_before_month(y, m) + d
}

/// The day of the week of a day number: 0 for Monday through 6 for Sunday.
pub open spec fn weekday_of_day(n: int) -> int {
    (n - 1) % 7
}

/// `y` lies within the supported range of years.
pub open spec fn year_in_range(y: int) -> bool {
    MIN_YEAR <= y <= MAX_YEAR
}

/// The day number lies within the supported range of dates.
pub open spec fn day_in_range(n: int) -> bool {
    day_number(MIN_YEAR as int, 1, 1) <= n <= day_number(MAX_YEAR as int, 12, 31)
}

/// (y, m0, d0), with 0-based month and day, is the date of day number `n`.
pub open spec fn is_date_of_day(y: int, m0: int, d0: int, n: int) -> bool {
    is_valid_date(y, m0 + 1, d0 + 1) && day_number(y, m0 + 1, d0 + 1) == n
}

/// The number of weeks of ISO week-numbering year `y`: 53 when the year
/// begins on a Thursday, or is a leap year beginning on a Wednesday.
pub open spec fn iso_weeks_in_year(y: int) -> int {
    let jan1 = weekday_of_day(day_number(y, 1, 1));
    if jan1 == 3 || (is_leap_year(y) && jan1 == 2) {
        53
    } else {
        52
    }
}

/// The day number of day `wd` (0 for Monday) of ISO week `week` (1-based)
/// of ISO year `y`. Week 1 is the week holding January 4.
pub open spec fn iso_week_day(y: int, week: int, wd: int) -> int {
    let jan4 = day_number(y, 1, 4);
    jan4 - weekday_of_day(jan4) + 7 * (week - 1) + wd
}

/// The 1-based day of the month of the `n`th (1-based) weekday `wd` (0 for
/// Monday) of month `m` of year `y`.
pub open spec fn nth_weekday_of_month(y: int, m: int, wd: int, n: int) -> int {
    let first = weekday_of_day(day_number(y, m, 1));
    (n - 1) * 7 + (wd - first + 7) % 7 + 1
}

/// Consecutive years: a year begins `days_in_year` days after the one
/// before it.
pub proof fn lemma_year_step(y: int)
    ensures
        day_number(y + 1, 1, 1) == day_number(y, 1, 1) + days_in_year(y),
{
    let p = y - 1;
    assert((p + 1) / 4 == p / 4 + (if (p + 1) % 4 == 0 { 1int } else { 0 })) by (nonlinear_arith);
    assert((p + 1) / 100 == p / 100 + (if (p + 1) % 100 == 0 { 1int } else { 0 }))
        by (nonlinear_arith);
    assert((p + 1) / 400 == p / 400 + (if (p + 1) % 400 == 0 { 1int } else { 0 }))
        by (nonlinear_arith);
}

/// Every date of year `y` has a day number within the year's span.
pub proof fn lemma_date_within_year(y: int, m: int, d: int)
    requires
        is_valid_date(y, m, d),
    ensures
        day_number(y, 1, 1) <= day_number(y, m, d) < day_number(y + 1, 1, 1),
{
    lemma_year_step(y);
}

/// Later years begin later.
pub proof fn lemma_year_start_monotonic(y1: int, y2: int)
    requires
        y1 < y2,
    ensures
        day_number(y1 + 1, 1, 1) <= day_number(y2, 1, 1),
    decreases y2 - y1,
{
    if y1 + 1 < y2 {
        lemma_year_start_monotonic(y1, y2 - 1);
        lemma_year_step(y2 - 1);
    }
}

/// Within a year, dates are ordered as their day numbers.
pub proof fn lemma_within_year_order(y: int, m1: int, d1: int, m2: int, d2: int)
    requires
        is_valid_date(y, m1, d1),
        is_valid_date(y, m2, d2),
        m1 < m2 || (m1 == m2 && d1 < d2),
    ensures
        day_number(y, m1, d1) < day_number(y, m2, d2),
{
}

/// Dates are ordered as their day numbers: a date earlier by year, then
/// month, then day has a smaller day number.
pub proof fn lemma_date_order(y1: int, m1: int, d1: int, y2: int, m2: int, d2: int)
    requires
        is_valid_date(y1, m1, d1),
        is_valid_date(y2, m2, d2),
        y1 < y2 || (y1 == y2 && (m1 < m2 || (m1 == m2 && d1 < d2))),
    ensures
        day_number(y1, m1, d1) < day_number(y2, m2, d2),
{
    lemma_date_within_year(y1, m1, d1);
    lemma_date_within_year(y2, m2, d2);
    if y1 < y2 {
        lemma_year_start_monotonic(y1, y2);
    } else {
        lemma_within_year_order(y1, m1, d1, m2, d2);
    }
}

/// A day number names exactly one date: distinct dates have distinct day
/// numbers.
pub proof fn lemma_day_number_injective(y1: int, m1: int, d1: int, y2: int, m2: int, d2: int)
    requires
        is_valid_date(y1, m1, d1),
        is_valid_date(y2, m2, d2),
        day_number(y1, m1, d1) == day_number(y2, m2, d2),
    ensures
        y1 == y2 && m1 == m2 && d1 == d2,
{
    lemma_date_within_year(y1, m1, d1);
    lemma_date_within_year(y2, m2, d2);
    if y1 < y2 {
        lemma_year_start_monotonic(y1, y2);
    } else if y2 < y1 {
        lemma_year_start_monotonic(y2, y1);
    } else {
        if m1 < m2 || (m1 == m2 && d1 < d2) {
            lemma_within_year_order(y1, m1, d1, m2, d2);
        } else if m2 < m1 || (m1 == m2 && d2 < d1) {
            lemma_within_year_order(y1, m2, d2, m1, d1);
        }
    }
}

} // verus!
