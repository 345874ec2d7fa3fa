//! Parsing Gregorian periods from the capture groups of a regular expression.
use vstd::prelude::*;
use std::collections::HashMap;
use crate::clock::{clock_from_parts, ClockTime};
use crate::gregorian::GregorianProleptic;
use crate::numeric::{
    lemma_parse_int_bounded, parse_i32, parse_int_spec, parse_u32, parse_u8, IntErrorKind,
    ParseIntError,
};
use crate::pattern::{regex_captures, regex_captures_len, groups_view, Pattern};
use crate::util::{remapped_group, CapturesMap};
use crate::weekday::{parse_weekday, ParseWeekdayError, Weekday};

verus! {

/// A parseable `GregorianProleptic` calendar format.
#[derive(Debug, Clone, Copy, PartialEq, Eq, Structural)]
pub enum Format {
    /// The year, month, and day.
    Ymd,
    /// The year and ordinal.
    Yo,
    /// The ISO week date: year, week number, day of week.
    Ywd,
    /// The day number, with 0001-01-01 as day 1.
    CeDay,
    /// The number of days since 1970-01-01.
    EpochDay,
    /// The `n`th weekday of the month of the given year.
    Ymwn,
}

/// An incorrect number of capture groups for a `GregorianProleptic` format.
pub type CaptureGroupCountError = crate::error::CaptureGroupCountError<Format>;

/// Why a `GregorianProleptic` could not be parsed.
#[derive(Debug, Clone)]
pub enum GregorianProlepticParseError {
    /// The regular expression does not match the text, given here.
    CaptureMatchFailure(String),
    /// The regular expression has the wrong number of capture groups.
    CaptureGroupCountError(CaptureGroupCountError),
    /// A numeric capture group is not an integer of its type.
    ParseIntError(ParseIntError),
    /// A weekday capture group does not name a day of the week.
    ParseWeekdayError(ParseWeekdayError),
}

/// A `GregorianProlepticParseError` as a value.
pub enum ParseErrorView {
    /// The regular expression does not match this text.
    CaptureMatchFailure(Seq<char>),
    /// The regular expression has the wrong number of capture groups.
    CaptureGroupCountError(CaptureGroupCountError),
    /// A numeric capture group is not an integer of its type.
    ParseIntError(IntErrorKind),
    /// A weekday capture group does not name a day of the week.
    ParseWeekdayError,
}

impl View for GregorianProlepticParseError {
    type V = ParseErrorView;

    open spec fn view(&self) -> ParseErrorView {
        match self {
            GregorianProlepticParseError::CaptureMatchFailure(s) => ParseErrorView::CaptureMatchFailure(
                s@,
            ),
            GregorianProlepticParseError::CaptureGroupCountError(e) => ParseErrorView::CaptureGroupCountError(
                *e,
            ),
            GregorianProlepticParseError::ParseIntError(e) => ParseErrorView::ParseIntError(e.kind),
            GregorianProlepticParseError::ParseWeekdayError(_) => ParseErrorView::ParseWeekdayError,
        }
    }
}

/// A parse result as a value.
pub open spec fn parse_result_view(r: Result<GregorianProleptic, GregorianProlepticParseError>) -> Result<
    GregorianProleptic,
    ParseErrorView,
> {
    match r {
        Ok(g) => Ok(g),
        Err(e) => Err(e@),
    }
}

/// The outcome of a parse: `None` where parsing is undefined (a required
/// group is missing, or a clock component is out of range).
pub type ParseOutcome = Option<Result<GregorianProleptic, ParseErrorView>>;

/// The number of capture groups (the whole match included) that a format
/// accepts, as (min, max).
pub open spec fn group_count_bounds(f: Format) -> (u8, u8) {
    match f {
        Format::Ymd => (2, 7),
        Format::Yo => (2, 6),
        Format::Ywd => (2, 7),
        Format::CeDay => (2, 5),
        Format::EpochDay => (2, 5),
        Format::Ymwn => (2, 8),
    }
}

/// The check of a capture group count `len` for format `f`. `Ymwn` refuses
/// exactly 4 groups, recommending 5 to 8.
pub open spec fn group_count_check(f: Format, len: usize) -> Result<usize, CaptureGroupCountError> {
    let (min, max) = group_count_bounds(f);
    if f == Format::Ymwn && len == 4 {
        Err(crate::error::CaptureGroupCountError { format: f, min: 5, max: 8 })
    } else if min <= len <= max {
        Ok(len)
    } else {
        Err(crate::error::CaptureGroupCountError { format: f, min, max })
    }
}

/// The optional integer in capture group `idx`, of the range `min..=max`.
pub open spec fn int_group(
    g: Seq<Option<Seq<char>>>,
    map: Map<usize, usize>,
    idx: usize,
    min: int,
    max: int,
) -> Result<Option<int>, IntErrorKind> {
    match remapped_group(g, map, idx) {
        None => Ok(None),
        Some(s) => match parse_int_spec(s, min, max) {
            Ok(v) => Ok(Some(v)),
            Err(e) => Err(e),
        },
    }
}

/// An optional integer as a `u8`.
pub open spec fn opt_u8(o: Option<int>) -> Option<u8> {
    match o {
        Some(v) => Some(v as u8),
        None => None,
    }
}

/// An optional integer as a `u32`.
pub open spec fn opt_u32(o: Option<int>) -> Option<u32> {
    match o {
        Some(v) => Some(v as u32),
        None => None,
    }
}

/// `o` is present and at least `bound`.
pub open spec fn at_least(o: Option<int>, bound: int) -> bool {
    o matches Some(v) && v >= bound
}

/// The clock period of groups `first`, `first + 1` and `first + 2` (hour,
/// minute, second); `None` where a present component is out of range.
pub open spec fn clock_groups(g: Seq<Option<Seq<char>>>, map: Map<usize, usize>, first: usize) -> Option<
    Result<Option<ClockTime>, ParseErrorView>,
> {
    match int_group(g, map, first, 0, 255) {
        Err(k) => Some(Err(ParseErrorView::ParseIntError(k))),
        Ok(h) => match int_group(g, map, (first + 1) as usize, 0, 255) {
            Err(k) => Some(Err(ParseErrorView::ParseIntError(k))),
            Ok(m) => match int_group(g, map, (first + 2) as usize, 0, 255) {
                Err(k) => Some(Err(ParseErrorView::ParseIntError(k))),
                Ok(s) => if at_least(h, 24) || at_least(m, 60) || at_least(s, 60) {
                    None
                } else {
                    Some(Ok(clock_from_parts(opt_u8(h), opt_u8(m), opt_u8(s))))
                },
            },
        },
    }
}

/// The day that `s` names, if any.
pub open spec fn named_day(s: Seq<char>) -> Option<Weekday> {
    if exists|w: Weekday| w.is_named_by(s) {
        Some(choose|w: Weekday| w.is_named_by(s))
    } else {
        None
    }
}

/// The optional weekday in capture group `idx`; `Err` when the group does
/// not name a day.
pub open spec fn weekday_group(g: Seq<Option<Seq<char>>>, map: Map<usize, usize>, idx: usize) -> Result<
    Option<Weekday>,
    ParseErrorView,
> {
    match remapped_group(g, map, idx) {
        None => Ok(None),
        Some(s) => match named_day(s) {
            Some(w) => Ok(Some(w)),
            None => Err(ParseErrorView::ParseWeekdayError),
        },
    }
}

/// The year alone, as a `Ymd` period.
pub open spec fn year_only(year: int) -> GregorianProleptic {
    GregorianProleptic::Ymd { year: year as i32, month: None, day: None, time: None }
}

/// Parsing the capture groups `g` (with index map `map`) in format `f`.
///
/// Group 1 holds the year (the day count for `CeDay` and `EpochDay`) and
/// must be present. The groups that follow give the format's fields in
/// order, then the hour, minute and second. A format whose second field is
/// absent gives the year alone. The first group that does not parse gives
/// the error.
pub open spec fn parse_groups_spec(f: Format, g: Seq<Option<Seq<char>>>, map: Map<usize, usize>) -> ParseOutcome {
    match remapped_group(g, map, 1) {
        None => None,
        Some(first) => match parse_int_spec(first, i32::MIN as int, i32::MAX as int) {
            Err(k) => Some(Err(ParseErrorView::ParseIntError(k))),
            Ok(v) => match f {
                Format::Ymd => match int_group(g, map, 2, 0, u32::MAX as int) {
                    Err(k) => Some(Err(ParseErrorView::ParseIntError(k))),
                    Ok(month) => match int_group(g, map, 3, 0, u32::MAX as int) {
                        Err(k) => Some(Err(ParseErrorView::ParseIntError(k))),
                        Ok(day) => match clock_groups(g, map, 4) {
                            None => None,
                            Some(Err(e)) => Some(Err(e)),
                            Some(Ok(time)) => Some(
                                Ok(
                                    GregorianProleptic::Ymd {
                                        year: v as i32,
                                        month: opt_u32(month),
                                        day: opt_u32(day),
                                        time,
                                    },
                                ),
                            ),
                        },
                    },
                },
                Format::Yo => match int_group(g, map, 2, 0, u32::MAX as int) {
                    Err(k) => Some(Err(ParseErrorView::ParseIntError(k))),
                    Ok(None) => Some(Ok(year_only(v))),
                    Ok(Some(ordinal)) => match clock_groups(g, map, 3) {
                        None => None,
                        Some(Err(e)) => Some(Err(e)),
                        Some(Ok(time)) => Some(
                            Ok(
                                GregorianProleptic::Yo {
                                    year: v as i32,
                                    ordinal: ordinal as u32,
                                    time,
                                },
                            ),
                        ),
                    },
                },
                Format::Ywd => match int_group(g, map, 2, 0, u32::MAX as int) {
                    Err(k) => Some(Err(ParseErrorView::ParseIntError(k))),
                    Ok(None) => Some(Ok(year_only(v))),
                    Ok(Some(week)) => match weekday_group(g, map, 3) {
                        Err(e) => Some(Err(e)),
                        Ok(weekday) => match clock_groups(g, map, 4) {
                            None => None,
                            Some(Err(e)) => Some(Err(e)),
                            Some(Ok(time)) => Some(
                                Ok(
                                    GregorianProleptic::Ywd {
                                        year: v as i32,
                                        week: week as u32,
                                        weekday,
                                        time,
                                    },
                                ),
                            ),
                        },
                    },
                },
                Format::CeDay => match clock_groups(g, map, 2) {
                    None => None,
                    Some(Err(e)) => Some(Err(e)),
                    Some(Ok(time)) => Some(Ok(GregorianProleptic::CeDay { days: v as i32, time })),
                },
                Format::EpochDay => match clock_groups(g, map, 2) {
                    None => None,
                    Some(Err(e)) => Some(Err(e)),
                    Some(Ok(time)) => Some(
                        Ok(GregorianProleptic::EpochDay { days: v as i32, time }),
                    ),
                },
                Format::Ymwn => match int_group(g, map, 2, 0, u32::MAX as int) {
                    Err(k) => Some(Err(ParseErrorView::ParseIntError(k))),
                    Ok(None) => Some(Ok(year_only(v))),
                    Ok(Some(month)) => match weekday_group(g, map, 3) {
                        Err(e) => Some(Err(e)),
                        Ok(None) => Some(
                            Ok(
                                GregorianProleptic::Ymd {
                                    year: v as i32,
                                    month: Some(month as u32),
                                    day: None,
                                    time: None,
                                },
                            ),
                        ),
                        Ok(Some(weekday)) => match remapped_group(g, map, 4) {
                            None => None,
                            Some(ns) => match parse_int_spec(ns, 0, 255) {
                                Err(k) => Some(Err(ParseErrorView::ParseIntError(k))),
                                Ok(n) => match clock_groups(g, map, 5) {
                                    None => None,
                                    Some(Err(e)) => Some(Err(e)),
                                    Some(Ok(time)) => Some(
                                        Ok(
                                            GregorianProleptic::Ymwn {
                                                year: v as i32,
                                                month: month as u32,
                                                weekday,
                                                n: n as u8,
                                                time,
                                            },
                                        ),
                                    ),
                                },
                            },
                        },
                    },
                },
            },
        },
    }
}

/// Parsing `text` in format `f` with the regular expression compiled from
/// `pattern` and the group index map `map`.
pub open spec fn parse_format_spec(
    text: Seq<char>,
    f: Format,
    pattern: Seq<char>,
    map: Map<usize, usize>,
) -> ParseOutcome {
    match group_count_check(f, regex_captures_len(pattern) as usize) {
        Err(e) => Some(Err(ParseErrorView::CaptureGroupCountError(e))),
        Ok(_) => match regex_captures(pattern, text) {
            None => Some(Err(ParseErrorView::CaptureMatchFailure(text))),
            Some(g) => parse_groups_spec(f, g, map),
        },
    }
}

/// An optional parse result as a value.
pub open spec fn outcome_view(r: Option<Result<GregorianProleptic, GregorianProlepticParseError>>) -> ParseOutcome {
    match r {
        Some(res) => Some(parse_result_view(res)),
        None => None,
    }
}

/// The weekday group of text that names a day is that day.
proof fn lemma_weekday_group_named(
    g: Seq<Option<Seq<char>>>,
    map: Map<usize, usize>,
    idx: usize,
    t: Seq<char>,
    w: Weekday,
)
    requires
        remapped_group(g, map, idx) == Some(t),
        w.is_named_by(t),
    ensures
        weekday_group(g, map, idx) == Ok::<Option<Weekday>, ParseErrorView>(Some(w)),
{
    let c = choose|w2: Weekday| w2.is_named_by(t);
    lemma_weekday_name_unique(t, w, c);
    assert(named_day(t) == Some(w));
}

/// At most one day is named by any text.
pub proof fn lemma_weekday_name_unique(s: Seq<char>, w1: Weekday, w2: Weekday)
    requires
        w1.is_named_by(s),
        w2.is_named_by(s),
    ensures
        w1 == w2,
{
    assert(s.len() >= 3);
    let a0 = s[0];
    let a1 = s[1];
    let a2 = s[2];
    if s.len() > 3 {
        let a3 = s[3];
    }
}

/// Group `idx` took part in the match and holds the integer `v` of the
/// range `min..=max`.
pub open spec fn group_holds_int(
    g: Seq<Option<Seq<char>>>,
    map: Map<usize, usize>,
    idx: usize,
    min: int,
    max: int,
    v: int,
) -> bool {
    remapped_group(g, map, idx) matches Some(s) && parse_int_spec(s, min, max) == Ok::<
        int,
        IntErrorKind,
    >(v)
}

/// Every group of the clock (hour, minute, second from `first` on) took no
/// part in the match.
pub open spec fn clock_groups_absent(g: Seq<Option<Seq<char>>>, map: Map<usize, usize>, first: usize) -> bool {
    &&& remapped_group(g, map, first) is None
    &&& remapped_group(g, map, (first + 1) as usize) is None
    &&& remapped_group(g, map, (first + 2) as usize) is None
}

/// A clock period parsed from groups `first..first + 3` is absent exactly
/// when none of them took part in the match.
proof fn lemma_clock_groups_absent(
    g: Seq<Option<Seq<char>>>,
    map: Map<usize, usize>,
    first: usize,
    t: Option<ClockTime>,
)
    requires
        first <= 10,
        clock_groups(g, map, first) == Some(Ok::<Option<ClockTime>, ParseErrorView>(t)),
    ensures
        t is None <==> clock_groups_absent(g, map, first),
{
}

/// An ISO week date is read from its groups: the year from group 1, the
/// 0-based week from group 2, the weekday from group 3 (absent exactly when
/// that group took no part in the match, and otherwise the day it names),
/// and a clock period exactly when one of groups 4 to 6 took part.
pub proof fn lemma_parse_week_date(
    g: Seq<Option<Seq<char>>>,
    map: Map<usize, usize>,
    year: i32,
    week: u32,
    weekday: Option<Weekday>,
    time: Option<ClockTime>,
)
    requires
        parse_groups_spec(Format::Ywd, g, map) == Some(
            Ok::<GregorianProleptic, ParseErrorView>(
                GregorianProleptic::Ywd { year, week, weekday, time },
            ),
        ),
    ensures
        group_holds_int(g, map, 1, i32::MIN as int, i32::MAX as int, year as int),
        group_holds_int(g, map, 2, 0, u32::MAX as int, week as int),
        (weekday is None) <==> (remapped_group(g, map, 3) is None),
        weekday matches Some(w) ==> (remapped_group(g, map, 3) matches Some(s) && w.is_named_by(
            s,
        )),
        (time is None) <==> clock_groups_absent(g, map, 4),
{
    let s1 = remapped_group(g, map, 1)->0;
    lemma_parse_int_bounded(s1, i32::MIN as int, i32::MAX as int);
    let s2 = remapped_group(g, map, 2)->0;
    lemma_parse_int_bounded(s2, 0, u32::MAX as int);
    if remapped_group(g, map, 3) is Some {
        let s3 = remapped_group(g, map, 3)->0;
        assert(named_day(s3) is Some);
        let w = choose|w: Weekday| w.is_named_by(s3);
        assert(w.is_named_by(s3));
    }
    lemma_clock_groups_absent(g, map, 4, time);
}

/// A date of `Ymd` format is read from its groups: the year from group 1,
/// the month from group 2 and the day from group 3, each absent exactly when
/// its group took no part in the match, and a clock period exactly when one
/// of groups 4 to 6 took part.
pub proof fn lemma_parse_calendar_date(
    g: Seq<Option<Seq<char>>>,
    map: Map<usize, usize>,
    r: GregorianProleptic,
)
    requires
        parse_groups_spec(Format::Ymd, g, map) == Some(Ok::<GregorianProleptic, ParseErrorView>(r)),
    ensures
        r matches GregorianProleptic::Ymd { year, month, day, time } && {
            &&& group_holds_int(g, map, 1, i32::MIN as int, i32::MAX as int, year as int)
            &&& (month is None) <==> (remapped_group(g, map, 2) is None)
            &&& month matches Some(m) ==> group_holds_int(g, map, 2, 0, u32::MAX as int, m as int)
            &&& (day is None) <==> (remapped_group(g, map, 3) is None)
            &&& day matches Some(d) ==> group_holds_int(g, map, 3, 0, u32::MAX as int, d as int)
            &&& (time is None) <==> clock_groups_absent(g, map, 4)
        },
{
    lemma_parse_int_bounded(remapped_group(g, map, 1)->0, i32::MIN as int, i32::MAX as int);
    if remapped_group(g, map, 2) is Some {
        lemma_parse_int_bounded(remapped_group(g, map, 2)->0, 0, u32::MAX as int);
    }
    if remapped_group(g, map, 3) is Some {
        lemma_parse_int_bounded(remapped_group(g, map, 3)->0, 0, u32::MAX as int);
    }
    lemma_clock_groups_absent(g, map, 4, r->Ymd_time);
}

/// An `n`th-weekday date is read from its groups: the year from group 1,
/// the month from group 2, the weekday named by group 3, the index from
/// group 4, and a clock period exactly when one of groups 5 to 7 took part.
pub proof fn lemma_parse_nth_weekday(
    g: Seq<Option<Seq<char>>>,
    map: Map<usize, usize>,
    year: i32,
    month: u32,
    weekday: Weekday,
    n: u8,
    time: Option<ClockTime>,
)
    requires
        parse_groups_spec(Format::Ymwn, g, map) == Some(
            Ok::<GregorianProleptic, ParseErrorView>(
                GregorianProleptic::Ymwn { year, month, weekday, n, time },
            ),
        ),
    ensures
        group_holds_int(g, map, 1, i32::MIN as int, i32::MAX as int, year as int),
        group_holds_int(g, map, 2, 0, u32::MAX as int, month as int),
        remapped_group(g, map, 3) matches Some(s) && weekday.is_named_by(s),
        group_holds_int(g, map, 4, 0, 255, n as int),
        (time is None) <==> clock_groups_absent(g, map, 5),
{
    lemma_parse_int_bounded(remapped_group(g, map, 1)->0, i32::MIN as int, i32::MAX as int);
    lemma_parse_int_bounded(remapped_group(g, map, 2)->0, 0, u32::MAX as int);
    lemma_parse_int_bounded(remapped_group(g, map, 4)->0, 0, 255);
    let s3 = remapped_group(g, map, 3)->0;
    assert(named_day(s3) is Some);
    let w = choose|w: Weekday| w.is_named_by(s3);
    assert(w.is_named_by(s3));
    lemma_clock_groups_absent(g, map, 5, time);
}

/// An ordinal date is read from its groups: the year from group 1, the
/// ordinal from group 2, and a clock period exactly when one of groups 3 to
/// 5 took part.
pub proof fn lemma_parse_ordinal_date(
    g: Seq<Option<Seq<char>>>,
    map: Map<usize, usize>,
    year: i32,
    ordinal: u32,
    time: Option<ClockTime>,
)
    requires
        parse_groups_spec(Format::Yo, g, map) == Some(
            Ok::<GregorianProleptic, ParseErrorView>(
                GregorianProleptic::Yo { year, ordinal, time },
            ),
        ),
    ensures
        group_holds_int(g, map, 1, i32::MIN as int, i32::MAX as int, year as int),
        group_holds_int(g, map, 2, 0, u32::MAX as int, ordinal as int),
        (time is None) <==> clock_groups_absent(g, map, 3),
{
    lemma_parse_int_bounded(remapped_group(g, map, 1)->0, i32::MIN as int, i32::MAX as int);
    lemma_parse_int_bounded(remapped_group(g, map, 2)->0, 0, u32::MAX as int);
    lemma_clock_groups_absent(g, map, 3, time);
}

/// A day count (`CeDay` or `EpochDay`) is read from group 1, with a clock
/// period exactly when one of groups 2 to 4 took part; the format decides
/// which of the two it is.
pub proof fn lemma_parse_day_count(
    f: Format,
    g: Seq<Option<Seq<char>>>,
    map: Map<usize, usize>,
    r: GregorianProleptic,
)
    requires
        f == Format::CeDay || f == Format::EpochDay,
        parse_groups_spec(f, g, map) == Some(Ok::<GregorianProleptic, ParseErrorView>(r)),
    ensures
        f == Format::CeDay ==> r is CeDay,
        f == Format::EpochDay ==> r is EpochDay,
        r matches GregorianProleptic::CeDay { days, time } ==> group_holds_int(
            g,
            map,
            1,
            i32::MIN as int,
            i32::MAX as int,
            days as int,
        ) && ((time is None) <==> clock_groups_absent(g, map, 2)),
        r matches GregorianProleptic::EpochDay { days, time } ==> group_holds_int(
            g,
            map,
            1,
            i32::MIN as int,
            i32::MAX as int,
            days as int,
        ) && ((time is None) <==> clock_groups_absent(g, map, 2)),
{
    lemma_parse_int_bounded(remapped_group(g, map, 1)->0, i32::MIN as int, i32::MAX as int);
    match r {
        GregorianProleptic::CeDay { time, .. } => lemma_clock_groups_absent(g, map, 2, time),
        GregorianProleptic::EpochDay { time, .. } => lemma_clock_groups_absent(g, map, 2, time),
        _ => {},
    }
}

impl Format {
    /// Checks a capture group count against the format's accepted range.
    pub fn check_capture_group_count(&self, len: usize) -> (r: Result<usize, CaptureGroupCountError>)
        ensures
            r == group_count_check(*self, len),
    {
        let (min, max): (u8, u8) = match self {
            Format::Ymd => (2, 7),
            Format::Yo => (2, 6),
            Format::Ywd => (2, 7),
            Format::CeDay => (2, 5),
            Format::EpochDay => (2, 5),
            Format::Ymwn => (2, 8),
        };
        if *self == Format::Ymwn && len == 4 {
            Err(crate::error::CaptureGroupCountError { format: *self, min: 5, max: 8 })
        } else if min as usize <= len && len <= max as usize {
            Ok(len)
        } else {
            Err(crate::error::CaptureGroupCountError { format: *self, min, max })
        }
    }

    /// Validates the regular expression, ensuring it has the number of
    /// capture groups that the format needs.
    pub fn validate_capture_group_count(&self, re: &Pattern) -> (r: Result<
        usize,
        CaptureGroupCountError,
    >)
        ensures
            r == group_count_check(*self, regex_captures_len(re.source_text()) as usize),
    {
        self.check_capture_group_count(re.captures_len())
    }
}

/// The optional `u32` in capture group `idx`.
fn u32_group(caps: &CapturesMap, idx: usize) -> (r: Result<Option<u32>, ParseIntError>)
    ensures
        match r {
            Ok(o) => int_group(caps.groups(), caps.map@, idx, 0, u32::MAX as int) == Ok::<
                Option<int>,
                IntErrorKind,
            >(
                match o {
                    Some(v) => Some(v as int),
                    None => None,
                },
            ),
            Err(e) => int_group(caps.groups(), caps.map@, idx, 0, u32::MAX as int) == Err::<
                Option<int>,
                IntErrorKind,
            >(e.kind),
        },
{
    match caps.get(idx) {
        None => Ok(None),
        Some(s) => match parse_u32(s) {
            Ok(v) => Ok(Some(v)),
            Err(e) => Err(e),
        },
    }
}

/// The optional `u8` in capture group `idx`.
fn u8_group(caps: &CapturesMap, idx: usize) -> (r: Result<Option<u8>, ParseIntError>)
    ensures
        match r {
            Ok(o) => int_group(caps.groups(), caps.map@, idx, 0, 255) == Ok::<
                Option<int>,
                IntErrorKind,
            >(
                match o {
                    Some(v) => Some(v as int),
                    None => None,
                },
            ),
            Err(e) => int_group(caps.groups(), caps.map@, idx, 0, 255) == Err::<
                Option<int>,
                IntErrorKind,
            >(e.kind),
        },
{
    match caps.get(idx) {
        None => Ok(None),
        Some(s) => match parse_u8(s) {
            Ok(v) => Ok(Some(v)),
            Err(e) => Err(e),
        },
    }
}

/// The clock period of groups `first` to `first + 2`; `None` where a
/// component is out of range.
fn clock_group(caps: &CapturesMap, first: usize) -> (r: Option<
    Result<Option<ClockTime>, GregorianProlepticParseError>,
>)
    requires
        first <= 5,
    ensures
        match r {
            Some(Ok(t)) => clock_groups(caps.groups(), caps.map@, first) == Some(
                Ok::<Option<ClockTime>, ParseErrorView>(t),
            ),
            Some(Err(e)) => clock_groups(caps.groups(), caps.map@, first) == Some(
                Err::<Option<ClockTime>, ParseErrorView>(e@),
            ),
            None => clock_groups(caps.groups(), caps.map@, first) is None,
        },
{
    let h = match u8_group(caps, first) {
        Ok(h) => h,
        Err(e) => {
            return Some(Err(GregorianProlepticParseError::ParseIntError(e)));
        },
    };
    let m = match u8_group(caps, first + 1) {
        Ok(m) => m,
        Err(e) => {
            return Some(Err(GregorianProlepticParseError::ParseIntError(e)));
        },
    };
    let s = match u8_group(caps, first + 2) {
        Ok(s) => s,
        Err(e) => {
            return Some(Err(GregorianProlepticParseError::ParseIntError(e)));
        },
    };
    let h_bad = match h {
        Some(v) => v >= 24,
        None => false,
    };
    let m_bad = match m {
        Some(v) => v >= 60,
        None => false,
    };
    let s_bad = match s {
        Some(v) => v >= 60,
        None => false,
    };
    if h_bad || m_bad || s_bad {
        return None;
    }
    Some(Ok(ClockTime::from_hms_opt(h, m, s)))
}

/// The optional weekday in capture group `idx`.
fn weekday_group_of(caps: &CapturesMap, idx: usize) -> (r: Result<
    Option<Weekday>,
    GregorianProlepticParseError,
>)
    ensures
        match r {
            Ok(o) => weekday_group(caps.groups(), caps.map@, idx) == Ok::<
                Option<Weekday>,
                ParseErrorView,
            >(o),
            Err(e) => weekday_group(caps.groups(), caps.map@, idx) == Err::<
                Option<Weekday>,
                ParseErrorView,
            >(e@),
        },
{
    match caps.get(idx) {
        None => Ok(None),
        Some(s) => match parse_weekday(s) {
            Ok(w) => {
                proof {
                    lemma_weekday_group_named(caps.groups(), caps.map@, idx, s@, w);
                }
                Ok(Some(w))
            },
            Err(e) => Err(GregorianProlepticParseError::ParseWeekdayError(e)),
        },
    }
}

/// Parses the capture groups in format `f`; `None` where the parse is
/// undefined.
fn parse_groups(f: Format, caps: &CapturesMap) -> (r: Option<
    Result<GregorianProleptic, GregorianProlepticParseError>,
>)
    ensures
        outcome_view(r) == parse_groups_spec(f, caps.groups(), caps.map@),
{
    let first = match caps.get(1) {
        Some(s) => s,
        None => {
            return None;
        },
    };
    let v = match parse_i32(first) {
        Ok(v) => v,
        Err(e) => {
            return Some(Err(GregorianProlepticParseError::ParseIntError(e)));
        },
    };
    match f {
        Format::Ymd => {
            let month = match u32_group(caps, 2) {
                Ok(m) => m,
                Err(e) => {
                    return Some(Err(GregorianProlepticParseError::ParseIntError(e)));
                },
            };
            let day = match u32_group(caps, 3) {
                Ok(d) => d,
                Err(e) => {
                    return Some(Err(GregorianProlepticParseError::ParseIntError(e)));
                },
            };
            match clock_group(caps, 4) {
                None => None,
                Some(Err(e)) => Some(Err(e)),
                Some(Ok(time)) => Some(Ok(GregorianProleptic::Ymd { year: v, month, day, time })),
            }
        },
        Format::Yo => {
            let ordinal = match u32_group(caps, 2) {
                Ok(Some(o)) => o,
                Ok(None) => {
                    return Some(
                        Ok(GregorianProleptic::Ymd { year: v, month: None, day: None, time: None }),
                    );
                },
                Err(e) => {
                    return Some(Err(GregorianProlepticParseError::ParseIntError(e)));
                },
            };
            match clock_group(caps, 3) {
                None => None,
                Some(Err(e)) => Some(Err(e)),
                Some(Ok(time)) => Some(Ok(GregorianProleptic::Yo { year: v, ordinal, time })),
            }
        },
        Format::Ywd => {
            let week = match u32_group(caps, 2) {
                Ok(Some(w)) => w,
                Ok(None) => {
                    return Some(
                        Ok(GregorianProleptic::Ymd { year: v, month: None, day: None, time: None }),
                    );
                },
                Err(e) => {
                    return Some(Err(GregorianProlepticParseError::ParseIntError(e)));
                },
            };
            let weekday = match weekday_group_of(caps, 3) {
                Ok(w) => w,
                Err(e) => {
                    return Some(Err(e));
                },
            };
            match clock_group(caps, 4) {
                None => None,
                Some(Err(e)) => Some(Err(e)),
                Some(Ok(time)) => Some(
                    Ok(GregorianProleptic::Ywd { year: v, week, weekday, time }),
                ),
            }
        },
        Format::CeDay => match clock_group(caps, 2) {
            None => None,
            Some(Err(e)) => Some(Err(e)),
            Some(Ok(time)) => Some(Ok(GregorianProleptic::CeDay { days: v, time })),
        },
        Format::EpochDay => match clock_group(caps, 2) {
            None => None,
            Some(Err(e)) => Some(Err(e)),
            Some(Ok(time)) => Some(Ok(GregorianProleptic::EpochDay { days: v, time })),
        },
        Format::Ymwn => {
            let month = match u32_group(caps, 2) {
                Ok(Some(m)) => m,
                Ok(None) => {
                    return Some(
                        Ok(GregorianProleptic::Ymd { year: v, month: None, day: None, time: None }),
                    );
                },
                Err(e) => {
                    return Some(Err(GregorianProlepticParseError::ParseIntError(e)));
                },
            };
            let weekday = match weekday_group_of(caps, 3) {
                Ok(Some(w)) => w,
                Ok(None) => {
                    return Some(
                        Ok(
                            GregorianProleptic::Ymd {
                                year: v,
                                month: Some(month),
                                day: None,
                                time: None,
                            },
                        ),
                    );
                },
                Err(e) => {
                    return Some(Err(e));
                },
            };
            let n_text = match caps.get(4) {
                Some(s) => s,
                None => {
                    return None;
                },
            };
            let n = match parse_u8(n_text) {
                Ok(n) => n,
                Err(e) => {
                    return Some(Err(GregorianProlepticParseError::ParseIntError(e)));
                },
            };
            match clock_group(caps, 5) {
                None => None,
                Some(Err(e)) => Some(Err(e)),
                Some(Ok(time)) => Some(
                    Ok(GregorianProleptic::Ymwn { year: v, month, weekday, n, time }),
                ),
            }
        },
    }
}

/// Parses the capture groups of a match in format `f`, with group indices
/// reassigned by `capture_map`; `None` where the parse is undefined.
pub fn parse_captures(
    f: Format,
    groups: Vec<Option<String>>,
    capture_map: &HashMap<usize, usize>,
) -> (r: Option<Result<GregorianProleptic, GregorianProlepticParseError>>)
    ensures
        outcome_view(r) == parse_groups_spec(f, groups_view(groups@), capture_map@),
{
    let caps = CapturesMap::new(groups, capture_map);
    parse_groups(f, &caps)
}

/// Parses `text` in `format`; `None` where parsing is undefined.
fn parse_format_outcome(
    text: &str,
    format: Format,
    re: &Pattern,
    capture_map: &HashMap<usize, usize>,
) -> (r: Option<Result<GregorianProleptic, GregorianProlepticParseError>>)
    ensures
        outcome_view(r) == parse_format_spec(text@, format, re.source_text(), capture_map@),
{
    match format.validate_capture_group_count(re) {
        Err(e) => {
            return Some(Err(GregorianProlepticParseError::CaptureGroupCountError(e)));
        },
        Ok(_) => {},
    }
    match re.captures(text) {
        None => Some(Err(GregorianProlepticParseError::CaptureMatchFailure(text.to_owned()))),
        Some(groups) => parse_captures(format, groups, capture_map),
    }
}

impl GregorianProleptic {
    /// Parses a `GregorianProleptic` from text using the provided format and
    /// regular expression.
    pub fn parse_format(
        text: &str,
        format: Format,
        re: &Pattern,
        capture_map: &HashMap<usize, usize>,
    ) -> (r: Result<Self, GregorianProlepticParseError>)
        requires
            parse_format_spec(text@, format, re.source_text(), capture_map@) is Some,
        ensures
            Some(parse_result_view(r)) == parse_format_spec(
                text@,
                format,
                re.source_text(),
                capture_map@,
            ),
    {
        parse_format_outcome(text, format, re, capture_map).unwrap()
    }

    /// Parses as `parse_format` does where parsing is defined, and gives
    /// `None` where it is not (a required group is missing, or a clock
    /// component is out of range).
    pub fn try_parse_format(
        text: &str,
        format: Format,
        re: &Pattern,
        capture_map: &HashMap<usize, usize>,
    ) -> (r: Option<Result<Self, GregorianProlepticParseError>>)
        ensures
            outcome_view(r) == parse_format_spec(text@, format, re.source_text(), capture_map@),
    {
        if parse_format_outcome(text, format, re, capture_map).is_some() {
            Some(Self::parse_format(text, format, re, capture_map))
        } else {
            None
        }
    }
}

impl From<CaptureGroupCountError> for GregorianProlepticParseError {
    fn from(e: CaptureGroupCountError) -> (r: Self) {
        GregorianProlepticParseError::CaptureGroupCountError(e)
    }
}

impl vstd::std_specs::convert::FromSpecImpl<CaptureGroupCountError> for GregorianProlepticParseError {
    open spec fn obeys_from_spec() -> bool {
        true
    }

    open spec fn from_spec(v: CaptureGroupCountError) -> Self {
        GregorianProlepticParseError::CaptureGroupCountError(v)
    }
}

impl From<ParseIntError> for GregorianProlepticParseError {
    fn from(e: ParseIntError) -> (r: Self) {
        GregorianProlepticParseError::ParseIntError(e)
    }
}

impl vstd::std_specs::convert::FromSpecImpl<ParseIntError> for GregorianProlepticParseError {
    open spec fn obeys_from_spec() -> bool {
        true
    }

    open spec fn from_spec(v: ParseIntError) -> Self {
        GregorianProlepticParseError::ParseIntError(v)
    }
}

impl From<ParseWeekdayError> for GregorianProlepticParseError {
    fn from(e: ParseWeekdayError) -> (r: Self) {
        GregorianProlepticParseError::ParseWeekdayError(e)
    }
}

impl vstd::std_specs::convert::FromSpecImpl<ParseWeekdayError> for GregorianProlepticParseError {
    open spec fn obeys_from_spec() -> bool {
        true
    }

    open spec fn from_spec(v: ParseWeekdayError) -> Self {
        GregorianProlepticParseError::ParseWeekdayError(v)
    }
}

} // verus!
