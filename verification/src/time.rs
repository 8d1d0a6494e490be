//! Durations, which are compared and made from a number of seconds.
use std::time::Duration;
use vstd::prelude::*;

verus! {

/// Calls `==` of [`Duration`], which holds for a duration and itself, and for no
/// two durations of different length.
pub assume_specification[ <std::time::Duration as PartialEq>::eq ](
    a: &std::time::Duration,
    b: &std::time::Duration,
) -> (same: bool)
    ensures
        same == (*a == *b),
;

/// The duration that `Duration::from_secs` makes from a number of whole seconds.
pub uninterp spec fn whole_seconds(secs: u64) -> Duration;

/// `Duration::from_secs` makes the duration of that many whole seconds: always the
/// same one for the same number, and another one for every other number.
pub assume_specification[ std::time::Duration::from_secs ](secs: u64) -> (duration:
    std::time::Duration)
    ensures
        duration == whole_seconds(secs),
        forall|other: u64| #[trigger] whole_seconds(other) == duration ==> other == secs,
;

} // verus!
