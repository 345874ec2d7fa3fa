//! Calendar conversions performed by `chrono`.
//!
//! Each function here makes one `chrono` conversion and hands back the date
//! as plain values: (year, 0-based month, 0-based day). Their contracts state
//! what `chrono` documents of the conversion in terms of the calendar of
//! `crate::civil`; nothing here is proved.
use vstd::prelude::*;
use chrono::Datelike;
use chrono::NaiveDate;
use crate::civil::{
    day_in_range, day_number, days_in_month, days_in_year, is_date_of_day, is_valid_date,
    iso_week_day, iso_weeks_in_year, nth_weekday_of_month, year_in_range, EPOCH_DAY_NUMBER,
};


verus! {

/// `NaiveDate::from_yo_opt`: the date of day `ordinal` (1-based) of `year`.
/// Claimed: a date exactly when the year is in range and the ordinal names a
/// day of that year, and then it is that day of that year.
#[verifier::external_body]
pub(crate) fn date_from_yo(year: i32, ordinal: u32) -> (r: Option<(i32, u32, u32)>)
    ensures
        r is Some <==> (year_in_range(year as int) && 1 <= ordinal <= days_in_year(year as int)),
        r matches Some((y, m0, d0)) ==> y == year && is_date_of_day(
            y as int,
            m0 as int,
            d0 as int,
            day_number(year as int, 1, 1) + ordinal - 1,
        ),
{
    NaiveDate::from_yo_opt(year, ordinal).map(|d| (d.year(), d.month0(), d.day0()))
}

/// `NaiveDate::from_isoywd_opt`: the date of weekday `wd` of ISO week
/// `week` (1-based) of ISO year `year`. Claimed: a date exactly when the
/// week exists in that year and the date is in range, and then it is the
/// date of that ISO week day (its calendar year may differ from `year`).
#[verifier::external_body]
pub(crate) fn date_from_iso_week(year: i32, week: u32, wd: crate::weekday::Weekday) -> (r: Option<(i32, u32, u32)>)
    requires
        i32::MIN < year < i32::MAX,
    ensures
        r is Some <==> (1 <= week <= iso_weeks_in_year(year as int) && day_in_range(
            iso_week_day(year as int, week as int, wd.index()),
        )),
        r matches Some((y, m0, d0)) ==> is_date_of_day(
            y as int,
            m0 as int,
            d0 as int,
            iso_week_day(year as int, week as int, wd.index()),
        ),
{
    let w = match wd {
        crate::weekday::Weekday::Mon => chrono::Weekday::Mon,
        crate::weekday::Weekday::Tue => chrono::Weekday::Tue,
        crate::weekday::Weekday::Wed => chrono::Weekday::Wed,
        crate::weekday::Weekday::Thu => chrono::Weekday::Thu,
        crate::weekday::Weekday::Fri => chrono::Weekday::Fri,
        crate::weekday::Weekday::Sat => chrono::Weekday::Sat,
        crate::weekday::Weekday::Sun => chrono::Weekday::Sun,
    };
    NaiveDate::from_isoywd_opt(year, week, w).map(|d| (d.year(), d.month0(), d.day0()))
}

/// `NaiveDate::from_num_days_from_ce_opt`: the date of a day number.
/// Claimed: a date exactly when the day number is in range, and then it is
/// the date of that day number.
#[verifier::external_body]
pub(crate) fn date_from_day_number(days: i32) -> (r: Option<(i32, u32, u32)>)
    ensures
        r is Some <==> day_in_range(days as int),
        r matches Some((y, m0, d0)) ==> is_date_of_day(y as int, m0 as int, d0 as int, days as int),
{
    NaiveDate::from_num_days_from_ce_opt(days).map(|d| (d.year(), d.month0(), d.day0()))
}

/// `NaiveDate::from_epoch_days`: the date `days` days after 1970-01-01.
/// Claimed: a date exactly when that day is in range, and then it is that
/// day.
#[verifier::external_body]
pub(crate) fn date_from_epoch_days(days: i32) -> (r: Option<(i32, u32, u32)>)
    ensures
        r is Some <==> day_in_range(days + EPOCH_DAY_NUMBER),
        r matches Some((y, m0, d0)) ==> is_date_of_day(
            y as int,
            m0 as int,
            d0 as int,
            days + EPOCH_DAY_NUMBER,
        ),
{
    NaiveDate::from_epoch_days(days).map(|d| (d.year(), d.month0(), d.day0()))
}

/// `NaiveDate::from_weekday_of_month_opt`: the `n`th (1-based) weekday `wd`
/// of month `month` (1-based) of `year`. Claimed: a date exactly when `n`
/// and the month are valid, the year is in range and that day exists in the
/// month, and then it is that day.
#[verifier::external_body]
pub(crate) fn date_from_weekday_of_month(year: i32, month: u32, wd: crate::weekday::Weekday, n: u8) -> (r: Option<
    (i32, u32, u32),
>)
    ensures
        r is Some <==> (n >= 1 && 1 <= month <= 12 && year_in_range(year as int)
            && nth_weekday_of_month(year as int, month as int, wd.index(), n as int)
            <= days_in_month(year as int, month as int)),
        r matches Some((y, m0, d0)) ==> y == year && m0 + 1 == month && d0 + 1
            == nth_weekday_of_month(year as int, month as int, wd.index(), n as int),
{
    let w = match wd {
        crate::weekday::Weekday::Mon => chrono::Weekday::Mon,
        crate::weekday::Weekday::Tue => chrono::Weekday::Tue,
        crate::weekday::Weekday::Wed => chrono::Weekday::Wed,
        crate::weekday::Weekday::Thu => chrono::Weekday::Thu,
        crate::weekday::Weekday::Fri => chrono::Weekday::Fri,
        crate::weekday::Weekday::Sat => chrono::Weekday::Sat,
        crate::weekday::Weekday::Sun => chrono::Weekday::Sun,
    };
    NaiveDate::from_weekday_of_month_opt(year, month, w, n).map(
        |d| (d.year(), d.month0(), d.day0()),
    )
}

/// `NaiveDate::num_days_in_month` of the first day of `month` (1-based) of
/// `year`. Claimed: a length exactly when the year is in range and the month
/// valid, and then it is the number of days of that month.
#[verifier::external_body]
pub(crate) fn month_length(year: i32, month: u32) -> (r: Option<u32>)
    ensures
        r is Some <==> (year_in_range(year as int) && 1 <= month <= 12),
        r matches Some(n) ==> n == days_in_month(year as int, month as int),
{
    NaiveDate::from_ymd_opt(year, month, 1).map(|d| d.num_days_in_month() as u32)
}

/// `NaiveDate::from_ymd_opt`, then its `num_days_from_ce`: the day number
/// of (year, month, day), 1-based. Claimed: a day number exactly when the
/// year is in range and the date valid, and then it is the date's day number.
#[verifier::external_body]
pub(crate) fn day_number_of(year: i32, month: u32, day: u32) -> (r: Option<i32>)
    ensures
        r is Some <==> (year_in_range(year as int) && is_valid_date(
            year as int,
            month as int,
            day as int,
        )),
        r matches Some(n) ==> n == day_number(year as int, month as int, day as int),
{
    NaiveDate::from_ymd_opt(year, month, day).map(|d| d.num_days_from_ce())
}

} // verus!
