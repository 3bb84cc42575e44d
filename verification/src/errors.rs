//! The error values returned when a string cannot be turned into a duration.

use vstd::prelude::*;

verus! {

/// The error which will be returned, if a value could not be parsed into an
/// `HumanReadableDuration`.
#[derive(Debug, Clone, Copy, PartialEq, Eq, Structural)]
pub struct ParseHumanReadableDurationError;

impl ParseHumanReadableDurationError {
    /// A short, human readable description of the error, usable in place of a
    /// `Display` implementation.
    pub fn message(&self) -> (r: &'static str)
        ensures
            r@ == "ParseHumanReadableDurationError"@,
    {
        "ParseHumanReadableDurationError"
    }
}

} // verus!
