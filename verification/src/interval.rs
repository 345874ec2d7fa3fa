//! Intervals of time represented in some calendar.
use vstd::prelude::*;
use std::collections::HashMap;
use crate::gregorian::GregorianProleptic;
use crate::gregorian_parse::{
    parse_format_spec, Format, GregorianProlepticParseError, ParseErrorView,
};
use crate::pattern::Pattern;

verus! {

/// The `Entry` record identifier type.
pub type EntryId = u64;

/// Supported parseable calendar types.
#[derive(Debug, Clone, Copy, PartialEq, Eq, Structural)]
pub enum CalendarSystem {
    /// The gregorian proleptic calendar.
    GregorianProleptic,
}

impl Default for CalendarSystem {
    fn default() -> (r: Self)
        ensures
            r == CalendarSystem::GregorianProleptic,
    {
        CalendarSystem::GregorianProleptic
    }
}

/// The endpoint type of a `TimeInterval`.
#[derive(Debug, Clone, Copy, PartialEq, Eq, Structural)]
pub enum Endpoint {
    /// The starting period of the interval.
    Start,
    /// The ending period of the interval.
    End,
}

/// A `TimeInterval` bound represented in some calendar.
#[derive(Debug, Clone)]
pub enum TimeBound<C> {
    /// An unknown time bound.
    Unbounded,
    /// A time bound lying within a single calendar period.
    At {
        /// The period.
        period: C,
    },
    /// A time bound coincident with another interval.
    IntervalRef {
        /// The other interval's entry.
        id: EntryId,
    },
    /// A time bound coincident with the start or end of another interval.
    BoundRef {
        /// The other interval's entry.
        id: EntryId,
        /// Which end of the other interval.
        bound: Endpoint,
    },
}

/// An interval of time represented in some calendar.
#[derive(Debug, Clone)]
pub struct TimeInterval<C> {
    /// The start of the interval.
    pub start: TimeBound<C>,
    /// The end of the interval.
    pub end: TimeBound<C>,
}

impl<C> TimeInterval<C> {
    /// The time interval starting and ending at the given calendar periods.
    pub fn new(start: C, end: C) -> (r: Self)
        ensures
            r.start == (TimeBound::At { period: start }),
            r.end == (TimeBound::At { period: end }),
    {
        TimeInterval { start: TimeBound::At { period: start }, end: TimeBound::At { period: end } }
    }

    /// An unspecified time interval.
    pub fn unknown() -> (r: Self)
        ensures
            r.start == TimeBound::<C>::Unbounded,
            r.end == TimeBound::<C>::Unbounded,
    {
        TimeInterval { start: TimeBound::Unbounded, end: TimeBound::Unbounded }
    }

    /// The unbounded time interval starting at the given calendar period.
    pub fn from(start: C) -> (r: Self)
        ensures
            r.start == (TimeBound::At { period: start }),
            r.end == TimeBound::<C>::Unbounded,
    {
        TimeInterval { start: TimeBound::At { period: start }, end: TimeBound::Unbounded }
    }

    /// The unbounded time interval ending at the given calendar period.
    pub fn to(end: C) -> (r: Self)
        ensures
            r.start == TimeBound::<C>::Unbounded,
            r.end == (TimeBound::At { period: end }),
    {
        TimeInterval { start: TimeBound::Unbounded, end: TimeBound::At { period: end } }
    }
}

impl<C> Default for TimeInterval<C> {
    /// An unspecified time interval, as `unknown` gives.
    fn default() -> (r: Self)
        ensures
            r.start == TimeBound::<C>::Unbounded,
            r.end == TimeBound::<C>::Unbounded,
    {
        Self::unknown()
    }
}

impl<C: Copy> TimeInterval<C> {
    /// The time interval coinciding with the given calendar period.
    pub fn at(time: C) -> (r: Self)
        ensures
            r.start == (TimeBound::At { period: time }),
            r.end == (TimeBound::At { period: time }),
    {
        TimeInterval { start: TimeBound::At { period: time }, end: TimeBound::At { period: time } }
    }
}

/// The interval starting at the parsed period, as a parse outcome.
pub open spec fn interval_outcome(o: Option<Result<GregorianProleptic, ParseErrorView>>) -> Option<
    Result<TimeInterval<GregorianProleptic>, ParseErrorView>,
> {
    match o {
        None => None,
        Some(Err(e)) => Some(Err(e)),
        Some(Ok(g)) => Some(
            Ok(TimeInterval { start: TimeBound::At { period: g }, end: TimeBound::Unbounded }),
        ),
    }
}

/// A parse result of an interval as a value.
pub open spec fn interval_result_view(
    r: Result<TimeInterval<GregorianProleptic>, GregorianProlepticParseError>,
) -> Result<TimeInterval<GregorianProleptic>, ParseErrorView> {
    match r {
        Ok(i) => Ok(i),
        Err(e) => Err(e@),
    }
}

impl TimeInterval<GregorianProleptic> {
    /// Parses the start of an interval from text; the interval is unbounded
    /// at its end.
    pub fn parse_format(
        text: &str,
        format: Format,
        re: &Pattern,
        capture_map: &HashMap<usize, usize>,
    ) -> (r: Result<Self, GregorianProlepticParseError>)
        requires
            parse_format_spec(text@, format, re.source_text(), capture_map@) is Some,
        ensures
            Some(interval_result_view(r)) == interval_outcome(
                parse_format_spec(text@, format, re.source_text(), capture_map@),
            ),
    {
        match GregorianProleptic::parse_format(text, format, re, capture_map) {
            Ok(g) => Ok(Self::from(g)),
            Err(e) => Err(e),
        }
    }

    /// Parses as `parse_format` does where parsing is defined, and gives
    /// `None` where it is not.
    pub fn try_parse_format(
        text: &str,
        format: Format,
        re: &Pattern,
        capture_map: &HashMap<usize, usize>,
    ) -> (r: Option<Result<Self, GregorianProlepticParseError>>)
        ensures
            match r {
                None => parse_format_spec(text@, format, re.source_text(), capture_map@) is None,
                Some(res) => Some(interval_result_view(res)) == interval_outcome(
                    parse_format_spec(text@, format, re.source_text(), capture_map@),
                ),
            },
    {
        match GregorianProleptic::try_parse_format(text, format, re, capture_map) {
            None => None,
            Some(_) => Some(Self::parse_format(text, format, re, capture_map)),
        }
    }
}

} // verus!
