//! Capability interfaces for reading a duration in different units, and for
//! converting it to a `chrono` duration.

use vstd::prelude::*;

verus! {

/// Used to get the number of seconds which represent a specific object which
/// implements this trait.
pub trait AsSeconds {
    /// The number of seconds the object stands for.
    spec fn spec_seconds(&self) -> u64;

    /// Get the duration time in seconds.
    fn as_seconds(&self) -> (r: u64)
        ensures
            r == self.spec_seconds(),
    ;
}

/// Used to get the number of full minutes which represent a specific object
/// which implements this trait.
pub trait AsMinutes {
    /// The number of full minutes the object stands for.
    spec fn spec_minutes(&self) -> u64;

    /// Get the duration time in full minutes.
    fn as_minutes(&self) -> (r: u64)
        ensures
            r == self.spec_minutes(),
    ;
}

/// Used to get the number of full hours which represent a specific object
/// which implements this trait.
pub trait AsHours {
    /// The number of full hours the object stands for.
    spec fn spec_hours(&self) -> u64;

    /// Get the duration time in full hours.
    fn as_hours(&self) -> (r: u64)
        ensures
            r == self.spec_hours(),
    ;
}

/// Used to get the number of full days which represent a specific object
/// which implements this trait.
pub trait AsDays {
    /// The number of full days the object stands for.
    spec fn spec_days(&self) -> u64;

    /// Get the duration time in full days.
    fn as_days(&self) -> (r: u64)
        ensures
            r == self.spec_days(),
    ;
}

/// Used to convert an object to a [`chrono::Duration`] representation.
pub trait AsDuration {
    /// Whether the object's length fits the range that a [`chrono::Duration`]
    /// can carry.
    spec fn duration_representable(&self) -> bool;

    /// The seconds count that the conversion hands to `chrono`.
    spec fn spec_duration_seconds(&self) -> int;

    /// Convert the object to a [`chrono::Duration`] representation: exactly
    /// the delta that `chrono` builds for the object's seconds count.
    fn as_duration(&self) -> (r: chrono::Duration)
        requires
            self.duration_representable(),
        ensures
            r == crate::chrono_delta::delta_of(self.spec_duration_seconds()),
    ;
}

} // verus!
