use timestitch::clock::ClockTime;
use timestitch::gregorian::GregorianProleptic;
use timestitch::weekday::Weekday;

#[test]
fn earliest_ymd_y() {
    let t0 = ClockTime::day_start();

    let dt = GregorianProleptic::Ymd { year: 2000, month: None, day: None, time: None };
    assert_eq!(
        dt.earliest(),
        GregorianProleptic::Ymd { year: 2000, month: Some(0), day: Some(0), time: Some(t0) });
}

#[test]
fn earliest_ymd_ym() {
    let t0 = ClockTime::day_start();

    let dt = GregorianProleptic::Ymd { year: 2000, month: Some(4), day: None, time: None };
    assert_eq!(
        dt.earliest(),
        GregorianProleptic::Ymd { year: 2000, month: Some(4), day: Some(0), time: Some(t0) });
}

#[test]
fn earliest_ymd_ymd() {
    let t0 = ClockTime::day_start();

    let dt = GregorianProleptic::Ymd { year: 2000, month: Some(4), day: Some(15), time: None };
    assert_eq!(
        dt.earliest(),
        GregorianProleptic::Ymd { year: 2000, month: Some(4), day: Some(15), time: Some(t0) });
}

#[test]
fn earliest_ymd_ymdh() {
    let t = Some(ClockTime::from_h(18));
    let dt = GregorianProleptic::Ymd { year: 2000, month: Some(4), day: Some(15), time: t };
    let time = t.as_ref().map(ClockTime::earliest);
    assert_eq!(
        dt.earliest(),
        GregorianProleptic::Ymd { year: 2000, month: Some(4), day: Some(15), time });
}

#[test]
fn earliest_ymd_ymdhm() {
    let t = Some(ClockTime::from_hm(18, 8));
    let dt = GregorianProleptic::Ymd { year: 2000, month: Some(4), day: Some(15), time: t };
    let time = t.as_ref().map(ClockTime::earliest);
    assert_eq!(
        dt.earliest(),
        GregorianProleptic::Ymd { year: 2000, month: Some(4), day: Some(15), time });
}

#[test]
fn earliest_ymd_ymdhms() {
    let t = Some(ClockTime::from_hms(18, 8, 59));
    let dt = GregorianProleptic::Ymd { year: 2000, month: Some(4), day: Some(15), time: t };
    let time = t.as_ref().map(ClockTime::earliest);
    assert_eq!(
        dt.earliest(),
        GregorianProleptic::Ymd { year: 2000, month: Some(4), day: Some(15), time });
}

#[test]
fn latest_ymd_y() {
    let t1 = ClockTime::day_end();

    let dt = GregorianProleptic::Ymd { year: 2000, month: None, day: None, time: None };
    assert_eq!(
        dt.latest(),
        GregorianProleptic::Ymd { year: 2000, month: Some(11), day: Some(30), time: Some(t1) });
}

#[test]
fn latest_ymd_ym() {
    let t1 = ClockTime::day_end();

    let dt = GregorianProleptic::Ymd { year: 2000, month: Some(4), day: None, time: None };
    assert_eq!(
        dt.latest(),
        GregorianProleptic::Ymd { year: 2000, month: Some(4), day: Some(30), time: Some(t1) });
}

#[test]
fn latest_ymd_ymd() {
    let t1 = ClockTime::day_end();

    let dt = GregorianProleptic::Ymd { year: 2000, month: Some(4), day: Some(15), time: None };
    assert_eq!(
        dt.latest(),
        GregorianProleptic::Ymd { year: 2000, month: Some(4), day: Some(15), time: Some(t1) });
}

#[test]
fn latest_ymd_ymdh() {
    let t = Some(ClockTime::from_h(18));
    let dt = GregorianProleptic::Ymd { year: 2000, month: Some(4), day: Some(15), time: t };
    let time = t.as_ref().map(ClockTime::latest);
    assert_eq!(
        dt.latest(),
        GregorianProleptic::Ymd { year: 2000, month: Some(4), day: Some(15), time });
}

#[test]
fn latest_ymd_ymdhm() {
    let t = Some(ClockTime::from_hm(18, 8));
    let dt = GregorianProleptic::Ymd { year: 2000, month: Some(4), day: Some(15), time: t };
    let time = t.as_ref().map(ClockTime::latest);
    assert_eq!(
        dt.latest(),
        GregorianProleptic::Ymd { year: 2000, month: Some(4), day: Some(15), time });
}

#[test]
fn latest_ymd_ymdhms() {
    let t = Some(ClockTime::from_hms(18, 8, 59));
    let dt = GregorianProleptic::Ymd { year: 2000, month: Some(4), day: Some(15), time: t };
    let time = t.as_ref().map(ClockTime::latest);
    assert_eq!(
        dt.latest(),
        GregorianProleptic::Ymd { year: 2000, month: Some(4), day: Some(15), time });
}

#[test]
fn earliest_yo_yo() {
    let t0 = ClockTime::day_start();

    let dt = GregorianProleptic::Yo { year: 2000, ordinal: 65, time: None };
    assert_eq!(
        dt.earliest(),
        GregorianProleptic::Ymd { year: 2000, month: Some(2), day: Some(4), time: Some(t0) });
}

#[test]
fn earliest_yo_yoh() {
    let t = Some(ClockTime::from_h(18));
    let dt = GregorianProleptic::Yo { year: 2000, ordinal: 65, time: t };
    let time = t.as_ref().map(ClockTime::earliest);
    assert_eq!(
        dt.earliest(),
        GregorianProleptic::Ymd { year: 2000, month: Some(2), day: Some(4), time });
}

#[test]
fn earliest_yo_yohm() {
    let t = Some(ClockTime::from_hm(18, 50));
    let dt = GregorianProleptic::Yo { year: 2000, ordinal: 65, time: t };
    let time = t.as_ref().map(ClockTime::earliest);
    assert_eq!(
        dt.earliest(),
        GregorianProleptic::Ymd { year: 2000, month: Some(2), day: Some(4), time });
}

#[test]
fn earliest_yo_yohms() {
    let t = Some(ClockTime::from_hms(18, 50, 1));
    let dt = GregorianProleptic::Yo { year: 2000, ordinal: 65, time: t };
    let time = t.as_ref().map(ClockTime::earliest);
    assert_eq!(
        dt.earliest(),
        GregorianProleptic::Ymd { year: 2000, month: Some(2), day: Some(4), time });
}

#[test]
fn latest_yo_yo() {
    let t1 = ClockTime::day_end();

    let dt = GregorianProleptic::Yo { year: 2000, ordinal: 65, time: None };
    assert_eq!(
        dt.latest(),
        GregorianProleptic::Ymd { year: 2000, month: Some(2), day: Some(4), time: Some(t1) });
}

#[test]
fn latest_yo_yoh() {
    let t = Some(ClockTime::from_h(18));
    let dt = GregorianProleptic::Yo { year: 2000, ordinal: 65, time: t };
    let time = t.as_ref().map(ClockTime::latest);
    assert_eq!(
        dt.latest(),
        GregorianProleptic::Ymd { year: 2000, month: Some(2), day: Some(4), time });
}

#[test]
fn latest_yo_yohm() {
    let t = Some(ClockTime::from_hm(18, 50));
    let dt = GregorianProleptic::Yo { year: 2000, ordinal: 65, time: t };
    let time = t.as_ref().map(ClockTime::latest);
    assert_eq!(
        dt.latest(),
        GregorianProleptic::Ymd { year: 2000, month: Some(2), day: Some(4), time });
}

#[test]
fn latest_yo_yohms() {
    let t = Some(ClockTime::from_hms(18, 50, 1));
    let dt = GregorianProleptic::Yo { year: 2000, ordinal: 65, time: t };
    let time = t.as_ref().map(ClockTime::latest);
    assert_eq!(
        dt.latest(),
        GregorianProleptic::Ymd { year: 2000, month: Some(2), day: Some(4), time });
}

#[test]
fn earliest_ywd_yw() {
    let t0 = ClockTime::day_start();

    let dt = GregorianProleptic::Ywd { year: 2000, week: 40, weekday: None, time: None };
    assert_eq!(
        dt.earliest(),
        GregorianProleptic::Ymd { year: 2000, month: Some(9), day: Some(8), time: Some(t0) });
}

#[test]
fn earliest_ywd_ywd() {
    let t0 = ClockTime::day_start();

    let weekday = Some(Weekday::Tue);
    let dt = GregorianProleptic::Ywd { year: 2000, week: 40, weekday, time: None };
    assert_eq!(
        dt.earliest(),
        GregorianProleptic::Ymd { year: 2000, month: Some(9), day: Some(9), time: Some(t0) });
}

#[test]
fn earliest_ywd_ywdh() {
    let weekday = Some(Weekday::Tue);
    let t = Some(ClockTime::from_h(2));
    let dt = GregorianProleptic::Ywd { year: 2000, week: 40, weekday, time: t };
    let time = t.as_ref().map(ClockTime::earliest);
    assert_eq!(
        dt.earliest(),
        GregorianProleptic::Ymd { year: 2000, month: Some(9), day: Some(9), time });
}

#[test]
fn earliest_ywd_ywdhm() {
    let weekday = Some(Weekday::Tue);
    let t = Some(ClockTime::from_hm(2, 0));
    let dt = GregorianProleptic::Ywd { year: 2000, week: 40, weekday, time: t };
    let time = t.as_ref().map(ClockTime::earliest);
    assert_eq!(
        dt.earliest(),
        GregorianProleptic::Ymd { year: 2000, month: Some(9), day: Some(9), time });
}

#[test]
fn earliest_ywd_ywdhms() {
    let weekday = Some(Weekday::Tue);
    let t = Some(ClockTime::from_hms(2, 0, 59));
    let dt = GregorianProleptic::Ywd { year: 2000, week: 40, weekday, time: t };
    let time = t.as_ref().map(ClockTime::earliest);
    assert_eq!(
        dt.earliest(),
        GregorianProleptic::Ymd { year: 2000, month: Some(9), day: Some(9), time });
}

#[test]
fn latest_ywd_yw() {
    let t1 = ClockTime::day_end();

    let dt = GregorianProleptic::Ywd { year: 2000, week: 40, weekday: None, time: None };
    assert_eq!(
        dt.latest(),
        GregorianProleptic::Ymd { year: 2000, month: Some(9), day: Some(14), time: Some(t1) });
}

#[test]
fn latest_ywd_ywd() {
    let t1 = ClockTime::day_end();

    let weekday = Some(Weekday::Tue);
    let dt = GregorianProleptic::Ywd { year: 2000, week: 40, weekday, time: None };
    assert_eq!(
        dt.latest(),
        GregorianProleptic::Ymd { year: 2000, month: Some(9), day: Some(9), time: Some(t1) });
}

#[test]
fn latest_ywd_ywdh() {
    let weekday = Some(Weekday::Tue);
    let t = Some(ClockTime::from_h(2));
    let dt = GregorianProleptic::Ywd { year: 2000, week: 40, weekday, time: t };
    let time = t.as_ref().map(ClockTime::latest);
    assert_eq!(
        dt.latest(),
        GregorianProleptic::Ymd { year: 2000, month: Some(9), day: Some(9), time });
}

#[test]
fn latest_ywd_ywdhm() {
    let weekday = Some(Weekday::Tue);
    let t = Some(ClockTime::from_hm(2, 0));
    let dt = GregorianProleptic::Ywd { year: 2000, week: 40, weekday, time: t };
    let time = t.as_ref().map(ClockTime::latest);
    assert_eq!(
        dt.latest(),
        GregorianProleptic::Ymd { year: 2000, month: Some(9), day: Some(9), time });
}

#[test]
fn latest_ywd_ywdhms() {
    let weekday = Some(Weekday::Tue);
    let t = Some(ClockTime::from_hms(2, 0, 59));
    let dt = GregorianProleptic::Ywd { year: 2000, week: 40, weekday, time: t };
    let time = t.as_ref().map(ClockTime::latest);
    assert_eq!(
        dt.latest(),
        GregorianProleptic::Ymd { year: 2000, month: Some(9), day: Some(9), time });
}

#[test]
fn earliest_ce_d() {
    let t0 = ClockTime::day_start();

    let dt = GregorianProleptic::CeDay { days: 741832, time: None };
    assert_eq!(
        dt.earliest(),
        GregorianProleptic::Ymd { year: 2032, month: Some(0), day: Some(24), time: Some(t0) });
}

#[test]
fn earliest_ce_dh() {
    let t = Some(ClockTime::from_h(23));
    let dt = GregorianProleptic::CeDay { days: 741832, time: t };
    let time = t.as_ref().map(ClockTime::earliest);
    assert_eq!(
        dt.earliest(),
        GregorianProleptic::Ymd { year: 2032, month: Some(0), day: Some(24), time });
}

#[test]
fn earliest_ce_dhm() {
    let t = Some(ClockTime::from_hm(23, 15));
    let dt = GregorianProleptic::CeDay { days: 741832, time: t };
    let time = t.as_ref().map(ClockTime::earliest);
    assert_eq!(
        dt.earliest(),
        GregorianProleptic::Ymd { year: 2032, month: Some(0), day: Some(24), time });
}

#[test]
fn earliest_ce_dhms() {
    let t = Some(ClockTime::from_hms(23, 15, 59));
    let dt = GregorianProleptic::CeDay { days: 741832, time: t };
    let time = t.as_ref().map(ClockTime::earliest);
    assert_eq!(
        dt.earliest(),
        GregorianProleptic::Ymd { year: 2032, month: Some(0), day: Some(24), time });
}

#[test]
fn latest_ce_d() {
    let t1 = ClockTime::day_end();

    let dt = GregorianProleptic::CeDay { days: 741832, time: None };
    assert_eq!(
        dt.latest(),
        GregorianProleptic::Ymd { year: 2032, month: Some(0), day: Some(24), time: Some(t1) });
}

#[test]
fn latest_ce_dh() {
    let t = Some(ClockTime::from_h(23));
    let dt = GregorianProleptic::CeDay { days: 741832, time: t };
    let time = t.as_ref().map(ClockTime::latest);
    assert_eq!(
        dt.latest(),
        GregorianProleptic::Ymd { year: 2032, month: Some(0), day: Some(24), time });
}

#[test]
fn latest_ce_dhm() {
    let t = Some(ClockTime::from_hm(23, 15));
    let dt = GregorianProleptic::CeDay { days: 741832, time: t };
    let time = t.as_ref().map(ClockTime::latest);
    assert_eq!(
        dt.latest(),
        GregorianProleptic::Ymd { year: 2032, month: Some(0), day: Some(24), time });
}

#[test]
fn latest_ce_dhms() {
    let t = Some(ClockTime::from_hms(23, 15, 59));
    let dt = GregorianProleptic::CeDay { days: 741832, time: t };
    let time = t.as_ref().map(ClockTime::latest);
    assert_eq!(
        dt.latest(),
        GregorianProleptic::Ymd { year: 2032, month: Some(0), day: Some(24), time });
}

#[test]
fn earliest_epoch_d() {
    let t0 = ClockTime::day_start();

    let dt = GregorianProleptic::EpochDay { days: -2189, time: None };
    assert_eq!(
        dt.earliest(),
        GregorianProleptic::Ymd { year: 1964, month: Some(0), day: Some(3), time: Some(t0) });
}

#[test]
fn earliest_epoch_dh() {
    let t = Some(ClockTime::from_h(23));
    let dt = GregorianProleptic::EpochDay { days: -2189, time: t };
    let time = t.as_ref().map(ClockTime::earliest);
    assert_eq!(
        dt.earliest(),
        GregorianProleptic::Ymd { year: 1964, month: Some(0), day: Some(3), time });
}

#[test]
fn earliest_epoch_dhm() {
    let t = Some(ClockTime::from_hm(23, 15));
    let dt = GregorianProleptic::EpochDay { days: -2189, time: t };
    let time = t.as_ref().map(ClockTime::earliest);
    assert_eq!(
        dt.earliest(),
        GregorianProleptic::Ymd { year: 1964, month: Some(0), day: Some(3), time });
}

#[test]
fn earliest_epoch_dhms() {
    let t = Some(ClockTime::from_hms(23, 15, 59));
    let dt = GregorianProleptic::EpochDay { days: -2189, time: t };
    let time = t.as_ref().map(ClockTime::earliest);
    assert_eq!(
        dt.earliest(),
        GregorianProleptic::Ymd { year: 1964, month: Some(0), day: Some(3), time });
}

#[test]
fn latest_epoch_d() {
    let t1 = ClockTime::day_end();

    let dt = GregorianProleptic::EpochDay { days: -2189, time: None };
    assert_eq!(
        dt.latest(),
        GregorianProleptic::Ymd { year: 1964, month: Some(0), day: Some(3), time: Some(t1) });
}

#[test]
fn latest_epoch_dh() {
    let t = Some(ClockTime::from_h(23));
    let dt = GregorianProleptic::EpochDay { days: -2189, time: t };
    let time = t.as_ref().map(ClockTime::latest);
    assert_eq!(
        dt.latest(),
        GregorianProleptic::Ymd { year: 1964, month: Some(0), day: Some(3), time });
}

#[test]
fn latest_epoch_dhm() {
    let t = Some(ClockTime::from_hm(23, 15));
    let dt = GregorianProleptic::EpochDay { days: -2189, time: t };
    let time = t.as_ref().map(ClockTime::latest);
    assert_eq!(
        dt.latest(),
        GregorianProleptic::Ymd { year: 1964, month: Some(0), day: Some(3), time });
}

#[test]
fn latest_epoch_dhms() {
    let t = Some(ClockTime::from_hms(23, 15, 59));
    let dt = GregorianProleptic::EpochDay { days: -2189, time: t };
    let time = t.as_ref().map(ClockTime::latest);
    assert_eq!(
        dt.latest(),
        GregorianProleptic::Ymd { year: 1964, month: Some(0), day: Some(3), time });
}

#[test]
fn earliest_ymwn_ymwn() {
    let t0 = ClockTime::day_start();

    let weekday = Weekday::Fri;
    let dt = GregorianProleptic::Ymwn { year: 80, month: 6, weekday, n: 2, time: None };
    assert_eq!(
        dt.earliest(),
        GregorianProleptic::Ymd { year: 80, month: Some(6), day: Some(13), time: Some(t0) });
}

#[test]
fn earliest_ymwn_ymwnh() {
    let weekday = Weekday::Fri;
    let t = Some(ClockTime::from_h(4));
    let dt = GregorianProleptic::Ymwn { year: 80, month: 6, weekday, n: 2, time: t };
    let time = t.as_ref().map(ClockTime::earliest);
    assert_eq!(
        dt.earliest(),
        GregorianProleptic::Ymd { year: 80, month: Some(6), day: Some(13), time });
}

#[test]
fn earliest_ymwn_ymwnhm() {
    let weekday = Weekday::Fri;
    let t = Some(ClockTime::from_hm(4, 5));
    let dt = GregorianProleptic::Ymwn { year: 80, month: 6, weekday, n: 2, time: t };
    let time = t.as_ref().map(ClockTime::earliest);
    assert_eq!(
        dt.earliest(),
        GregorianProleptic::Ymd { year: 80, month: Some(6), day: Some(13), time });
}

#[test]
fn earliest_ymwn_ymwnhms() {
    let weekday = Weekday::Fri;
    let t = Some(ClockTime::from_hms(4, 5, 6));
    let dt = GregorianProleptic::Ymwn { year: 80, month: 6, weekday, n: 2, time: t };
    let time = t.as_ref().map(ClockTime::earliest);
    assert_eq!(
        dt.earliest(),
        GregorianProleptic::Ymd { year: 80, month: Some(6), day: Some(13), time });
}

#[test]
fn latest_ymwn_ymwn() {
    let t1 = ClockTime::day_end();

    let weekday = Weekday::Fri;
    let dt = GregorianProleptic::Ymwn { year: 80, month: 6, weekday, n: 2, time: None };
    assert_eq!(
        dt.latest(),
        GregorianProleptic::Ymd { year: 80, month: Some(6), day: Some(13), time: Some(t1) });
}

#[test]
fn latest_ymwn_ymwnh() {
    let weekday = Weekday::Fri;
    let t = Some(ClockTime::from_h(4));
    let dt = GregorianProleptic::Ymwn { year: 80, month: 6, weekday, n: 2, time: t };
    let time = t.as_ref().map(ClockTime::latest);
    assert_eq!(
        dt.latest(),
        GregorianProleptic::Ymd { year: 80, month: Some(6), day: Some(13), time });
}

#[test]
fn latest_ymwn_ymwnhm() {
    let weekday = Weekday::Fri;
    let t = Some(ClockTime::from_hm(4, 5));
    let dt = GregorianProleptic::Ymwn { year: 80, month: 6, weekday, n: 2, time: t };
    let time = t.as_ref().map(ClockTime::latest);
    assert_eq!(
        dt.latest(),
        GregorianProleptic::Ymd { year: 80, month: Some(6), day: Some(13), time });
}

#[test]
fn latest_ymwn_ymwnhms() {
    let weekday = Weekday::Fri;
    let t = Some(ClockTime::from_hms(4, 5, 6));
    let dt = GregorianProleptic::Ymwn { year: 80, month: 6, weekday, n: 2, time: t };
    let time = t.as_ref().map(ClockTime::latest);
    assert_eq!(
        dt.latest(),
        GregorianProleptic::Ymd { year: 80, month: Some(6), day: Some(13), time });
}

#[test]
fn ordering() {
    let mut elems: Vec<(usize, GregorianProleptic)> = vec![];
    elems.sort_by(|(_, a), (_, b)| a.compare(b));
    assert!(elems.is_empty());
}
