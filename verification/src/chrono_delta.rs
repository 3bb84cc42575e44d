//! The bridge to the `chrono` crate's duration type.

use vstd::prelude::*;

verus! {

#[verifier::external_type_specification]
#[verifier::external_body]
pub struct ExTimeDelta(chrono::TimeDelta);

/// The largest number of seconds a [`chrono::TimeDelta`] can carry: `chrono`
/// restricts the range to that of `i64` milliseconds.
pub const MAX_DELTA_SECONDS: u64 = 9_223_372_036_854_775;

/// The delta that `chrono::TimeDelta::seconds` builds for the given seconds
/// count. The result depends on the argument alone.
pub uninterp spec fn delta_of(secs: int) -> chrono::TimeDelta;

/// Relies on `chrono::TimeDelta::seconds`, which builds a delta of the given
/// number of whole seconds and panics only when the value is more than
/// `i64::MAX / 1_000` or less than `-i64::MAX / 1_000`.
#[verifier::external_body]
pub(crate) fn delta_from_seconds(secs: i64) -> (r: chrono::TimeDelta)
    requires
        0 <= secs <= MAX_DELTA_SECONDS,
    ensures
        r == delta_of(secs as int),
{
    chrono::TimeDelta::seconds(secs)
}

} // verus!
