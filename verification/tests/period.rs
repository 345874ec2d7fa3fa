use std::cmp::Ordering;
use timestitch::clock::ClockTime;
use timestitch::gregorian::GregorianProleptic;
use timestitch::weekday::Weekday;

/// Asserts that two periods are written alike, field by field.
fn same_fields(a: GregorianProleptic, b: GregorianProleptic) {
    assert_eq!(format!("{:?}", a), format!("{:?}", b));
}

fn ymd(year: i32, month: u32, day: u32) -> GregorianProleptic {
    GregorianProleptic::Ymd { year, month: Some(month), day: Some(day), time: None }
}

#[test]
fn normalized_forms() {
    same_fields(GregorianProleptic::CeDay { days: 1, time: None }.normalized(), ymd(1, 0, 0));
    same_fields(GregorianProleptic::EpochDay { days: 0, time: None }.normalized(), ymd(1970, 0, 0));
    same_fields(
        GregorianProleptic::Yo { year: 2020, ordinal: 60, time: None }.normalized(),
        ymd(2020, 1, 28));
    same_fields(
        GregorianProleptic::Ywd { year: 2020, week: 0, weekday: Some(Weekday::Mon), time: None }
            .normalized(),
        ymd(2019, 11, 29));
    same_fields(
        GregorianProleptic::Ymwn { year: 2024, month: 5, weekday: Weekday::Sun, n: 2, time: None }
            .normalized(),
        GregorianProleptic::Ymd { year: 2024, month: Some(5), day: Some(11), time: None });
    let t = Some(ClockTime::from_hm(6, 30));
    same_fields(
        GregorianProleptic::EpochDay { days: 1, time: t }.normalized(),
        GregorianProleptic::Ymd { year: 1970, month: Some(0), day: Some(1), time: t });
    let week = GregorianProleptic::Ywd { year: 2020, week: 3, weekday: None, time: None };
    same_fields(week.normalized(), week);
}

#[test]
fn normalized_is_the_same_period() {
    for g in [
        GregorianProleptic::CeDay { days: 737000, time: None },
        GregorianProleptic::EpochDay { days: -5, time: Some(ClockTime::from_h(3)) },
        GregorianProleptic::Yo { year: 1999, ordinal: 365, time: None },
    ] {
        assert!(g.same_period(&g.normalized()));
        assert_eq!(g.compare(&g.normalized()), Ordering::Equal);
    }
}

#[test]
fn earliest_not_after_latest() {
    for g in [
        GregorianProleptic::Ymd { year: 2000, month: None, day: None, time: None },
        ymd(2000, 1, 28),
        GregorianProleptic::Ywd { year: 2021, week: 51, weekday: None, time: None },
        GregorianProleptic::Ymwn { year: 2021, month: 11, weekday: Weekday::Fri, n: 4, time: None },
    ] {
        assert_ne!(g.earliest().compare(&g.latest()), Ordering::Greater);
    }
}

#[test]
fn periods_order_by_earliest_then_latest() {
    let year = GregorianProleptic::Ymd { year: 2020, month: None, day: None, time: None };
    let january = GregorianProleptic::Ymd { year: 2020, month: Some(0), day: None, time: None };
    let june = GregorianProleptic::Ymd { year: 2020, month: Some(5), day: None, time: None };
    assert_eq!(january.compare(&year), Ordering::Less);
    assert_eq!(year.compare(&january), Ordering::Greater);
    assert_eq!(year.compare(&june), Ordering::Less);
    assert_eq!(ymd(2020, 0, 0).compare(&ymd(2020, 0, 1)), Ordering::Less);
    assert_eq!(ymd(2019, 11, 30).compare(&ymd(2020, 0, 0)), Ordering::Less);
    assert!(ymd(1970, 0, 0).same_period(&GregorianProleptic::EpochDay { days: 0, time: None }));
    assert!(!ymd(1970, 0, 1).same_period(&GregorianProleptic::EpochDay { days: 0, time: None }));
}

#[test]
fn period_order_is_transitive_on_samples() {
    let gs = [
        ymd(2020, 0, 0),
        GregorianProleptic::Ymd { year: 2020, month: Some(0), day: None, time: None },
        GregorianProleptic::CeDay { days: 737425, time: Some(ClockTime::from_h(12)) },
        ymd(2021, 3, 3),
    ];
    for a in &gs {
        for b in &gs {
            assert_eq!(a.compare(b), b.compare(a).reverse());
            for c in &gs {
                if a.compare(b) != Ordering::Greater && b.compare(c) != Ordering::Greater {
                    assert_ne!(a.compare(c), Ordering::Greater);
                }
            }
        }
    }
}

#[test]
fn equal_periods_are_equal() {
    assert_eq!(GregorianProleptic::Yo { year: 2000, ordinal: 65, time: None }, ymd(2000, 2, 4));
    assert_ne!(GregorianProleptic::Yo { year: 2000, ordinal: 65, time: None }, ymd(2000, 2, 5));
    assert_eq!(ymd(1970, 0, 0), GregorianProleptic::EpochDay { days: 0, time: None });
    assert_ne!(
        GregorianProleptic::Ymd { year: 2000, month: None, day: None, time: None },
        GregorianProleptic::Yo { year: 2000, ordinal: 1, time: None });
    let instant = GregorianProleptic::Ymd {
        year: 2000,
        month: Some(0),
        day: Some(0),
        time: Some(ClockTime::from_hms(0, 0, 0)),
    };
    assert_eq!(GregorianProleptic::CeDay { days: 730120, time: Some(ClockTime::from_h(0)) }.earliest(), instant);
    assert_ne!(ymd(2000, 0, 0), instant);
    assert_eq!(ymd(2000, 0, 0).earliest(), instant);
}

#[test]
fn incomparable_periods_are_equal_when_written_alike() {
    let odd = GregorianProleptic::Ymwn { year: 2021, month: 12, weekday: Weekday::Fri, n: 1, time: None };
    assert!(!odd.is_comparable());
    assert!(ymd(2000, 0, 0).is_comparable());
    assert_eq!(odd, odd);
    assert_ne!(odd, GregorianProleptic::Ymwn { year: 2021, month: 12, weekday: Weekday::Fri, n: 2, time: None });
    assert_ne!(odd, ymd(2021, 11, 2));
}
