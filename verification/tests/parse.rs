use std::collections::HashMap;
use timestitch::clock::ClockTime;
use timestitch::error::CaptureGroupCountError;
use timestitch::gregorian::GregorianProleptic;
use timestitch::gregorian_parse::{parse_captures, Format, GregorianProlepticParseError};
use timestitch::interval::{TimeBound, TimeInterval};
use timestitch::numeric::{parse_i32, parse_u32, parse_u64, parse_u8, IntErrorKind, ParseIntError};
use timestitch::pattern::Pattern;
use timestitch::weekday::Weekday;

/// Asserts that two periods are written alike, field by field.
fn same_fields(a: GregorianProleptic, b: GregorianProleptic) {
    assert_eq!(format!("{:?}", a), format!("{:?}", b));
}

fn pat(s: &str) -> Pattern {
    Pattern::new(s).unwrap()
}

fn kind(k: IntErrorKind) -> ParseIntError {
    ParseIntError { kind: k }
}

#[test]
fn parse_unsigned_follows_std() {
    assert_eq!(parse_u64("0"), Ok(0));
    assert_eq!(parse_u64("+42"), Ok(42));
    assert_eq!(parse_u64("18446744073709551615"), Ok(u64::MAX));
    assert_eq!(parse_u64("18446744073709551616"), Err(kind(IntErrorKind::PosOverflow)));
    assert_eq!(parse_u64(""), Err(kind(IntErrorKind::Empty)));
    assert_eq!(parse_u64("-1"), Err(kind(IntErrorKind::InvalidDigit)));
    assert_eq!(parse_u64("+"), Err(kind(IntErrorKind::InvalidDigit)));
    assert_eq!(parse_u64("1x"), Err(kind(IntErrorKind::InvalidDigit)));
    assert_eq!(parse_u8("255"), Ok(255));
    assert_eq!(parse_u8("256"), Err(kind(IntErrorKind::PosOverflow)));
    assert_eq!(parse_u32("4294967295"), Ok(u32::MAX));
}

#[test]
fn parse_signed_follows_std() {
    assert_eq!(parse_i32("-2147483648"), Ok(i32::MIN));
    assert_eq!(parse_i32("2147483647"), Ok(i32::MAX));
    assert_eq!(parse_i32("-2147483649"), Err(kind(IntErrorKind::NegOverflow)));
    assert_eq!(parse_i32("2147483648"), Err(kind(IntErrorKind::PosOverflow)));
    assert_eq!(parse_i32("-"), Err(kind(IntErrorKind::InvalidDigit)));
    assert_eq!(parse_i32("--1"), Err(kind(IntErrorKind::InvalidDigit)));
    assert_eq!(parse_i32("-17"), Ok(-17));
}

#[test]
fn parse_int_matches_std_on_samples() {
    for s in ["", "0", "12", "+7", "-7", "99999999999", "a", "-", "+", "007"] {
        assert_eq!(parse_i32(s).is_ok(), s.parse::<i32>().is_ok(), "{}", s);
        assert_eq!(parse_u64(s).ok(), s.parse::<u64>().ok(), "{}", s);
    }
}

#[test]
fn capture_group_counts() {
    assert_eq!(Format::Ymd.check_capture_group_count(4), Ok(4));
    assert_eq!(
        Format::Ymd.check_capture_group_count(1),
        Err(CaptureGroupCountError { format: Format::Ymd, min: 2, max: 7 }));
    assert_eq!(
        Format::CeDay.check_capture_group_count(6),
        Err(CaptureGroupCountError { format: Format::CeDay, min: 2, max: 5 }));
    assert_eq!(
        Format::Ymwn.check_capture_group_count(4),
        Err(CaptureGroupCountError { format: Format::Ymwn, min: 5, max: 8 }));
    assert_eq!(Format::Ymwn.check_capture_group_count(5), Ok(5));
    let re = pat(r"(\d+)-(\d+)-(\d+)");
    assert_eq!(Format::Ymd.validate_capture_group_count(&re), Ok(4));
    assert_eq!(re.captures_len(), 4);
    assert_eq!(re.as_str(), r"(\d+)-(\d+)-(\d+)");
}

#[test]
fn invalid_pattern_is_refused() {
    assert!(Pattern::new("(").is_none());
}

#[test]
fn parse_ymd_with_clock() {
    let re = pat(r"(\d+)-(\d+)-(\d+)(?: (\d+):(\d+))?");
    let map = HashMap::new();
    let g = GregorianProleptic::parse_format("2021-3-14 09:26", Format::Ymd, &re, &map).unwrap();
    same_fields(
        g,
        GregorianProleptic::Ymd {
            year: 2021,
            month: Some(3),
            day: Some(14),
            time: Some(ClockTime::from_hm(9, 26)),
        });
    let g = GregorianProleptic::parse_format("2021-3-14", Format::Ymd, &re, &map).unwrap();
    same_fields(g, GregorianProleptic::Ymd { year: 2021, month: Some(3), day: Some(14), time: None });
}

#[test]
fn parse_with_group_map() {
    let re = pat(r"(\d+)/(\d+)");
    let mut map = HashMap::new();
    map.insert(1, 2);
    map.insert(2, 1);
    let g = GregorianProleptic::parse_format("5/2020", Format::Ymd, &re, &map).unwrap();
    same_fields(g, GregorianProleptic::Ymd { year: 2020, month: Some(5), day: None, time: None });
}

#[test]
fn parse_other_formats() {
    let map = HashMap::new();
    let yo = pat(r"(\d+)\.(\d+)");
    same_fields(
        GregorianProleptic::parse_format("2020.60", Format::Yo, &yo, &map).unwrap(),
        GregorianProleptic::Yo { year: 2020, ordinal: 60, time: None });
    let ywd = pat(r"(\d+)-W(\d+)-(\w+)");
    same_fields(
        GregorianProleptic::parse_format("2020-W10-Tuesday", Format::Ywd, &ywd, &map).unwrap(),
        GregorianProleptic::Ywd { year: 2020, week: 10, weekday: Some(Weekday::Tue), time: None });
    let ce = pat(r"(-?\d+)");
    same_fields(
        GregorianProleptic::parse_format("-3", Format::CeDay, &ce, &map).unwrap(),
        GregorianProleptic::CeDay { days: -3, time: None });
    same_fields(
        GregorianProleptic::parse_format("19000", Format::EpochDay, &ce, &map).unwrap(),
        GregorianProleptic::EpochDay { days: 19000, time: None });
    let ymwn = pat(r"(\d+) (\d+) (\w+) (\d+)");
    same_fields(
        GregorianProleptic::parse_format("2024 5 sun 2", Format::Ymwn, &ymwn, &map).unwrap(),
        GregorianProleptic::Ymwn { year: 2024, month: 5, weekday: Weekday::Sun, n: 2, time: None });
}

#[test]
fn parse_missing_optional_groups_gives_coarser_period() {
    let map = HashMap::new();
    let yo = pat(r"(\d+)(?:\.(\d+))?");
    same_fields(
        GregorianProleptic::parse_format("2020", Format::Yo, &yo, &map).unwrap(),
        GregorianProleptic::Ymd { year: 2020, month: None, day: None, time: None });
}

#[test]
fn parse_errors() {
    let map = HashMap::new();
    let re = pat(r"(\d+)-(\d+)-(\d+)");
    match GregorianProleptic::parse_format("no date", Format::Ymd, &re, &map) {
        Err(GregorianProlepticParseError::CaptureMatchFailure(s)) => assert_eq!(s, "no date"),
        other => panic!("{:?}", other),
    }
    let all = pat(r".*");
    match GregorianProleptic::parse_format("x", Format::Ymd, &all, &map) {
        Err(GregorianProlepticParseError::CaptureGroupCountError(e)) => {
            assert_eq!(e, CaptureGroupCountError { format: Format::Ymd, min: 2, max: 7 })
        },
        other => panic!("{:?}", other),
    }
    let word = pat(r"(\w+)");
    match GregorianProleptic::parse_format("abc", Format::CeDay, &word, &map) {
        Err(GregorianProlepticParseError::ParseIntError(e)) => {
            assert_eq!(e.kind, IntErrorKind::InvalidDigit)
        },
        other => panic!("{:?}", other),
    }
    let ywd = pat(r"(\d+)-(\d+)-(\w+)");
    match GregorianProleptic::parse_format("2020-3-xyz", Format::Ywd, &ywd, &map) {
        Err(GregorianProlepticParseError::ParseWeekdayError(_)) => {},
        other => panic!("{:?}", other),
    }
}

#[test]
fn try_parse_undefined_cases() {
    let map = HashMap::new();
    let re = pat(r"(\d+)-(\d+)-(\d+) (\d+)");
    assert!(GregorianProleptic::try_parse_format("2020-1-2 25", Format::Ymd, &re, &map).is_none());
    assert!(GregorianProleptic::try_parse_format("2020-1-2 23", Format::Ymd, &re, &map).is_some());
    let ymwn = pat(r"(\d+) (\d+) (\w+)(?: (\d+))?");
    assert!(GregorianProleptic::try_parse_format("2024 5 sun", Format::Ymwn, &ymwn, &map).is_none());
}

#[test]
fn parse_captures_direct() {
    let map = HashMap::new();
    let groups = vec![Some("2020-7".to_string()), Some("2020".to_string()), Some("7".to_string())];
    match parse_captures(Format::Ymd, groups, &map) {
        Some(Ok(g)) => {
            same_fields(g, GregorianProleptic::Ymd { year: 2020, month: Some(7), day: None, time: None })
        },
        other => panic!("{:?}", other),
    }
    assert!(parse_captures(Format::Ymd, vec![Some("x".to_string()), None], &map).is_none());
}

#[test]
fn interval_parse_starts_at_period() {
    let map = HashMap::new();
    let re = pat(r"(\d+)");
    let i = TimeInterval::parse_format("1999", Format::Ymd, &re, &map).unwrap();
    assert!(matches!(i.end, TimeBound::Unbounded));
    match i.start {
        TimeBound::At { period } => same_fields(
            period,
            GregorianProleptic::Ymd { year: 1999, month: None, day: None, time: None }),
        other => panic!("{:?}", other),
    }
    assert!(TimeInterval::try_parse_format("x", Format::Ymd, &re, &map).unwrap().is_err());
}

#[test]
fn interval_constructors() {
    let i = TimeInterval::new(1u8, 2u8);
    assert!(matches!((i.start, i.end), (TimeBound::At { period: 1 }, TimeBound::At { period: 2 })));
    let i = TimeInterval::<u8>::unknown();
    assert!(matches!((i.start, i.end), (TimeBound::Unbounded, TimeBound::Unbounded)));
    let i = TimeInterval::from(3u8);
    assert!(matches!((i.start, i.end), (TimeBound::At { period: 3 }, TimeBound::Unbounded)));
    let i = TimeInterval::to(4u8);
    assert!(matches!((i.start, i.end), (TimeBound::Unbounded, TimeBound::At { period: 4 })));
    let i = TimeInterval::at(5u8);
    assert!(matches!((i.start, i.end), (TimeBound::At { period: 5 }, TimeBound::At { period: 5 })));
}

#[test]
fn interval_default_is_unknown() {
    let i = TimeInterval::<u8>::default();
    assert!(matches!((i.start, i.end), (TimeBound::Unbounded, TimeBound::Unbounded)));
}
