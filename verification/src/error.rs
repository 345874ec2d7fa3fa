//! Common error types.
use vstd::prelude::*;

verus! {

/// An incorrect number of capture groups has been provided for a calendar
/// parser.
#[derive(Debug, Clone, Copy, PartialEq, Eq, Structural)]
pub struct CaptureGroupCountError<F> {
    /// The format.
    pub format: F,
    /// The minimum number of capture groups to use.
    pub min: u8,
    /// The maximum number of capture groups to use.
    pub max: u8,
}

} // verus!
