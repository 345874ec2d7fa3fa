//! Clock-measurable time periods.
use vstd::prelude::*;
use vstd::std_specs::cmp::PartialOrdSpecImpl;
use std::cmp::Ordering;
use crate::numeric::ParseIntError;
use crate::text::{push_char, push_two_digits, two_digits};

verus! {

/// A time period resolvable to units of an hour, minute, or second.
///
/// The period is as precise as its most specific component: an hour alone
/// names the whole hour, an hour and minute the whole minute.
#[derive(Debug, Clone, Copy, PartialEq, Eq, Structural)]
pub struct ClockTime {
    /// The hour.
    pub hour: u8,
    /// The minute.
    pub minute: Option<u8>,
    /// The second.
    pub second: Option<u8>,
}

/// The first second of a day, 00:00:00.
pub open spec fn spec_day_start() -> ClockTime {
    ClockTime { hour: 0, minute: Some(0), second: Some(0) }
}

/// The last second of a day, 23:59:59.
pub open spec fn spec_day_end() -> ClockTime {
    ClockTime { hour: 23, minute: Some(59), second: Some(59) }
}

/// `a` if it is present, else `b`.
pub open spec fn or_else<T>(a: Option<T>, b: Option<T>) -> Option<T> {
    match a {
        Some(x) => Some(x),
        None => b,
    }
}

/// Three-way comparison of two clock components.
pub open spec fn order_u8(a: u8, b: u8) -> Ordering {
    if a < b {
        Ordering::Less
    } else if a == b {
        Ordering::Equal
    } else {
        Ordering::Greater
    }
}

/// Lexicographic combination: `a`, unless it is `Equal`, else `b`.
pub open spec fn then_order(a: Ordering, b: Ordering) -> Ordering {
    match a {
        Ordering::Equal => b,
        _ => a,
    }
}

/// The reversed ordering.
pub open spec fn reversed_order(a: Ordering) -> Ordering {
    match a {
        Ordering::Less => Ordering::Greater,
        Ordering::Equal => Ordering::Equal,
        Ordering::Greater => Ordering::Less,
    }
}

/// The period of the given components, a missing less specific component
/// taken as `0` when a more specific one is given; `None` when none is given.
pub open spec fn clock_from_parts(hour: Option<u8>, minute: Option<u8>, second: Option<u8>) -> Option<
    ClockTime,
> {
    let m = or_else(minute, if second is Some { Some(0u8) } else { None });
    let h = or_else(hour, if m is Some { Some(0u8) } else { None });
    match h {
        Some(h) => Some(ClockTime { hour: h, minute: m, second }),
        None => None,
    }
}

impl ClockTime {
    /// Every present component lies within its range on a 24-hour clock.
    pub open spec fn valid(self) -> bool {
        &&& self.hour < 24
        &&& (self.minute matches Some(m) ==> m < 60)
        &&& (self.second matches Some(s) ==> s < 60)
    }

    /// Both the minute and the second are present.
    pub open spec fn fully_resolved(self) -> bool {
        self.minute is Some && self.second is Some
    }

    /// The value with missing components taken from `time`; a second
    /// without a minute brings a minute of `0`.
    pub open spec fn spec_extend(self, time: ClockTime) -> ClockTime {
        let second = or_else(self.second, time.second);
        let minute = or_else(self.minute, time.minute);
        ClockTime {
            hour: self.hour,
            minute: or_else(minute, if second is Some { Some(0u8) } else { None }),
            second,
        }
    }

    /// The first second of the period.
    pub open spec fn spec_earliest(self) -> ClockTime {
        self.spec_extend(spec_day_start())
    }

    /// The last second of the period.
    pub open spec fn spec_latest(self) -> ClockTime {
        self.spec_extend(spec_day_end())
    }

    /// Comparison of two periods of the same resolution: by hour, then
    /// minute, then second. Periods of different resolutions are unordered.
    pub open spec fn period_order(self, other: ClockTime) -> Option<Ordering> {
        let h = order_u8(self.hour, other.hour);
        let hm = match (self.minute, other.minute) {
            (Some(a), Some(b)) => Some(then_order(h, order_u8(a, b))),
            (None, None) => Some(h),
            _ => None,
        };
        match hm {
            None => None,
            Some(o) => match (self.second, other.second) {
                (Some(a), Some(b)) => Some(then_order(o, order_u8(a, b))),
                (None, None) => Some(o),
                _ => None,
            },
        }
    }

    /// The period of the first second of a day.
    pub fn day_start() -> (r: Self)
        ensures
            r == spec_day_start(),
    {
        ClockTime { hour: 0, minute: Some(0), second: Some(0) }
    }

    /// The period of the last second of a day.
    pub fn day_end() -> (r: Self)
        ensures
            r == spec_day_end(),
    {
        ClockTime { hour: 23, minute: Some(59), second: Some(59) }
    }

    /// Constructs a new `ClockTime` from the given hour value.
    pub fn from_h(hour: u8) -> (r: Self)
        requires
            hour < 24,
        ensures
            r == (ClockTime { hour, minute: None, second: None }),
    {
        ClockTime { hour, minute: None, second: None }
    }

    /// Constructs a new `ClockTime` from the given hour & minute values.
    pub fn from_hm(hour: u8, minute: u8) -> (r: Self)
        requires
            hour < 24,
            minute < 60,
        ensures
            r == (ClockTime { hour, minute: Some(minute), second: None }),
    {
        ClockTime { hour, minute: Some(minute), second: None }
    }

    /// Constructs a new `ClockTime` from the given hour, minute, and second
    /// values.
    pub fn from_hms(hour: u8, minute: u8, second: u8) -> (r: Self)
        requires
            hour < 24,
            minute < 60,
            second < 60,
        ensures
            r == (ClockTime { hour, minute: Some(minute), second: Some(second) }),
    {
        ClockTime { hour, minute: Some(minute), second: Some(second) }
    }

    /// Constructs a new `ClockTime` from optional hour, minute, and second
    /// values.
    ///
    /// If the second is provided without a minute, or a minute (or second)
    /// without an hour, a value of `0` is assumed for the less specific
    /// values. Returns `None` when no component is given.
    pub fn from_hms_opt(hour: Option<u8>, minute: Option<u8>, second: Option<u8>) -> (r: Option<
        Self,
    >)
        requires
            hour matches Some(h) ==> h < 24,
            minute matches Some(m) ==> m < 60,
            second matches Some(s) ==> s < 60,
        ensures
            r == clock_from_parts(hour, minute, second),
            r is None <==> (hour is None && minute is None && second is None),
            r matches Some(t) ==> t.valid(),
    {
        let minute = match minute {
            Some(m) => Some(m),
            None => if second.is_some() { Some(0u8) } else { None },
        };
        let hour = match hour {
            Some(h) => Some(h),
            None => if minute.is_some() { Some(0u8) } else { None },
        };
        match hour {
            Some(h) => Some(ClockTime { hour: h, minute, second }),
            None => None,
        }
    }

    /// Sets the hour and returns the `ClockTime`.
    pub fn with_hour(self, hour: u8) -> (r: Self)
        ensures
            r == (ClockTime { hour, ..self }),
    {
        ClockTime { hour, ..self }
    }

    /// Sets the minute and returns the `ClockTime`.
    pub fn with_minute_opt(self, minute: Option<u8>) -> (r: Self)
        ensures
            r == (ClockTime { minute, ..self }),
    {
        ClockTime { minute, ..self }
    }

    /// Sets the minute and returns the `ClockTime`.
    pub fn with_minute(self, minute: u8) -> (r: Self)
        ensures
            r == (ClockTime { minute: Some(minute), ..self }),
    {
        ClockTime { minute: Some(minute), ..self }
    }

    /// Sets the second and returns the `ClockTime`.
    ///
    /// If the minute has not been set, it will be set to `0`.
    pub fn with_second_opt(self, second: Option<u8>) -> (r: Self)
        ensures
            r == (ClockTime { hour: self.hour, minute: or_else(self.minute, Some(0u8)), second }),
    {
        let minute = match self.minute {
            Some(m) => Some(m),
            None => Some(0u8),
        };
        ClockTime { hour: self.hour, minute, second }
    }

    /// Sets the second and returns the `ClockTime`.
    ///
    /// If the minute has not been set, it will be set to `0`.
    pub fn with_second(self, second: u8) -> (r: Self)
        ensures
            r == (ClockTime {
                hour: self.hour,
                minute: or_else(self.minute, Some(0u8)),
                second: Some(second),
            }),
    {
        self.with_second_opt(Some(second))
    }

    /// Sets the values for any missing components to those of the provided
    /// value and returns the `ClockTime`.
    ///
    /// If the second value is provided without a minute set, the minute will
    /// be set to `0`.
    pub fn extend(self, time: ClockTime) -> (r: Self)
        ensures
            r == self.spec_extend(time),
    {
        let second = match self.second {
            Some(s) => Some(s),
            None => time.second,
        };
        let minute = match self.minute {
            Some(m) => Some(m),
            None => match time.minute {
                Some(m) => Some(m),
                None => if second.is_some() {
                    Some(0u8)
                } else {
                    None
                },
            },
        };
        ClockTime { hour: self.hour, minute, second }
    }

    /// The text of the period: `hh`, `hh:mm` or `hh:mm:ss`, each component
    /// padded to two digits (a second without a minute shows minute `00`).
    pub open spec fn text(self) -> Seq<char> {
        let h = two_digits(self.hour as nat);
        match (self.minute, self.second) {
            (None, None) => h,
            (Some(m), None) => h + seq![':'] + two_digits(m as nat),
            (Some(m), Some(s)) => h + seq![':'] + two_digits(m as nat) + seq![':'] + two_digits(
                s as nat,
            ),
            (None, Some(s)) => h + seq![':', '0', '0', ':'] + two_digits(s as nat),
        }
    }

    /// Formats the period as text (see `text`).
    pub fn to_text(&self) -> (r: String)
        ensures
            r@ == self.text(),
    {
        let mut out = String::new();
        push_two_digits(&mut out, self.hour);
        match (self.minute, self.second) {
            (None, None) => {},
            (Some(m), None) => {
                push_char(&mut out, ':');
                push_two_digits(&mut out, m);
            },
            (Some(m), Some(s)) => {
                push_char(&mut out, ':');
                push_two_digits(&mut out, m);
                push_char(&mut out, ':');
                push_two_digits(&mut out, s);
            },
            (None, Some(s)) => {
                push_char(&mut out, ':');
                push_char(&mut out, '0');
                push_char(&mut out, '0');
                push_char(&mut out, ':');
                push_two_digits(&mut out, s);
            },
        }
        assert(out@ == self.text());
        out
    }

    /// The earliest point of the period, resolved to the second.
    pub fn earliest(&self) -> (r: Self)
        ensures
            r == self.spec_earliest(),
    {
        self.extend(Self::day_start())
    }

    /// The latest point of the period, resolved to the second.
    pub fn latest(&self) -> (r: Self)
        ensures
            r == self.spec_latest(),
    {
        self.extend(Self::day_end())
    }
}

/// `point` lies within the period `t`: it agrees with every component that
/// `t` gives.
pub open spec fn period_contains(t: ClockTime, point: ClockTime) -> bool {
    &&& point.hour == t.hour
    &&& (t.minute is Some ==> point.minute == t.minute)
    &&& (t.second is Some ==> point.second == t.second)
}

/// `o` is `Less` or `Equal`.
pub open spec fn is_le(o: Option<Ordering>) -> bool {
    o matches Some(Ordering::Less) || o matches Some(Ordering::Equal)
}

/// The earliest and latest points of a valid period are valid, resolved to
/// the second, and in the same hour as the period.
pub proof fn lemma_projections_resolved(t: ClockTime)
    requires
        t.valid(),
    ensures
        t.spec_earliest().valid(),
        t.spec_earliest().fully_resolved(),
        t.spec_earliest().hour == t.hour,
        t.spec_latest().valid(),
        t.spec_latest().fully_resolved(),
        t.spec_latest().hour == t.hour,
{
}

/// A period resolved to the second is its own earliest and latest point, so
/// projecting twice is projecting once.
pub proof fn lemma_projections_idempotent(t: ClockTime)
    ensures
        t.fully_resolved() ==> t.spec_earliest() == t && t.spec_latest() == t,
        t.spec_earliest().spec_earliest() == t.spec_earliest(),
        t.spec_latest().spec_latest() == t.spec_latest(),
{
}

/// Every point of a valid period lies between its earliest and latest
/// points; in particular the earliest point is not after the latest.
pub proof fn lemma_projections_bound_period(t: ClockTime, point: ClockTime)
    requires
        t.valid(),
        point.valid(),
        point.fully_resolved(),
        period_contains(t, point),
    ensures
        is_le(t.spec_earliest().period_order(point)),
        is_le(point.period_order(t.spec_latest())),
        is_le(t.spec_earliest().period_order(t.spec_latest())),
{
}

/// Two periods are comparable exactly when they have the same resolution.
pub proof fn lemma_order_defined(a: ClockTime, b: ClockTime)
    ensures
        a.period_order(b) is Some <==> (a.minute is Some <==> b.minute is Some) && (
        a.second is Some <==> b.second is Some),
{
}

/// The ordering is reflexive, and reports `Equal` only for equal periods.
pub proof fn lemma_order_equal(a: ClockTime, b: ClockTime)
    ensures
        a.period_order(a) == Some(Ordering::Equal),
        a.period_order(b) == Some(Ordering::Equal) ==> a == b,
{
}

/// Swapping the operands reverses the ordering.
pub proof fn lemma_order_antisymmetric(a: ClockTime, b: ClockTime)
    ensures
        match a.period_order(b) {
            Some(o) => b.period_order(a) == Some(reversed_order(o)),
            None => b.period_order(a) is None,
        },
{
}

/// The ordering is transitive.
pub proof fn lemma_order_transitive(a: ClockTime, b: ClockTime, c: ClockTime)
    requires
        is_le(a.period_order(b)),
        is_le(b.period_order(c)),
    ensures
        is_le(a.period_order(c)),
        a.period_order(b) == Some(Ordering::Less) ==> a.period_order(c) == Some(Ordering::Less),
{
}

/// The second of the day at which a clock period begins: the hour, minute
/// and second counted in seconds, a missing component counting as `0`.
pub open spec fn seconds_of_day(t: ClockTime) -> int {
    let m: int = match t.minute {
        Some(m) => m as int,
        None => 0,
    };
    let s: int = match t.second {
        Some(s) => s as int,
        None => 0,
    };
    t.hour * 3600 + m * 60 + s
}

/// Valid periods of the same resolution are ordered as the seconds of the
/// day at which they begin: the order is that of the clock.
pub proof fn lemma_order_by_seconds(a: ClockTime, b: ClockTime)
    requires
        a.valid(),
        b.valid(),
        a.minute is Some <==> b.minute is Some,
        a.second is Some <==> b.second is Some,
    ensures
        (a.period_order(b) == Some(Ordering::Less)) <==> (seconds_of_day(a) < seconds_of_day(b)),
        (a.period_order(b) == Some(Ordering::Equal)) <==> (seconds_of_day(a) == seconds_of_day(b)),
        (a.period_order(b) == Some(Ordering::Greater)) <==> (seconds_of_day(a) > seconds_of_day(b)),
        (a.period_order(b) == Some(Ordering::Equal)) <==> (a == b),
{
}

/// Exec three-way comparison of two clock components.
fn order_of(a: u8, b: u8) -> (r: Ordering)
    ensures
        r == order_u8(a, b),
{
    if a < b {
        Ordering::Less
    } else if a == b {
        Ordering::Equal
    } else {
        Ordering::Greater
    }
}

/// Exec lexicographic combination of two orderings.
fn then_of(a: Ordering, b: Ordering) -> (r: Ordering)
    ensures
        r == then_order(a, b),
{
    match a {
        Ordering::Equal => b,
        _ => a,
    }
}

// Only periods of equal resolution are compared. Periods of different
// resolutions should first be projected with `earliest` or `latest`.
impl PartialOrd for ClockTime {
    fn partial_cmp(&self, other: &Self) -> (r: Option<Ordering>) {
        let h = order_of(self.hour, other.hour);
        let hm = match (self.minute, other.minute) {
            (Some(a), Some(b)) => then_of(h, order_of(a, b)),
            (None, None) => h,
            _ => {
                return None;
            },
        };
        match (self.second, other.second) {
            (Some(a), Some(b)) => Some(then_of(hm, order_of(a, b))),
            (None, None) => Some(hm),
            _ => None,
        }
    }
}

impl PartialOrdSpecImpl for ClockTime {
    open spec fn obeys_partial_cmp_spec() -> bool {
        true
    }

    open spec fn partial_cmp_spec(&self, other: &Self) -> Option<Ordering> {
        self.period_order(*other)
    }
}

/// Why a `ClockTime` could not be parsed.
#[derive(Debug, Clone, Copy, PartialEq, Eq, Structural)]
pub enum ClockTimeParseError {
    /// A component is not an integer of its type.
    ParseIntError(ParseIntError),
}

impl From<ParseIntError> for ClockTimeParseError {
    fn from(e: ParseIntError) -> (r: Self) {
        ClockTimeParseError::ParseIntError(e)
    }
}

impl vstd::std_specs::convert::FromSpecImpl<ParseIntError> for ClockTimeParseError {
    open spec fn obeys_from_spec() -> bool {
        true
    }

    open spec fn from_spec(v: ParseIntError) -> Self {
        ClockTimeParseError::ParseIntError(v)
    }
}

} // verus!
