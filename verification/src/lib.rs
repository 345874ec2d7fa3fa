//! Timestitch: calendar periods, clock times and time intervals for building
//! journals and timelines from dated records.

pub mod application;
pub mod attribute;
pub mod civil;
pub mod clock;
pub mod dates;
pub mod error;
pub mod gregorian;
pub mod gregorian_parse;
pub mod interval;
pub mod lines;
pub mod numeric;
pub mod pattern;
pub mod period_eq;
pub mod period_order;
pub mod record;
pub mod text;
pub mod util;
pub mod weekday;

pub use clock::ClockTime;
