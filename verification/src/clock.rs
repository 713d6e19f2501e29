//! The system clock, as far as the engine deals with it. Nothing here is
//! proved: these are the declarations through which the engine reaches the
//! standard library's clock, and none of them promises anything about the
//! time that is read.

use vstd::prelude::*;

verus! {

/// `std::time::Instant`, a point in time as the system clock gives it.
/// Nothing is known of its value.
#[verifier::external_type_specification]
#[verifier::external_body]
pub struct ExInstant(std::time::Instant);

/// `Instant::now` reads the clock: nothing is promised of what it returns.
pub assume_specification[ std::time::Instant::now ]() -> (now: std::time::Instant)
;

/// `Instant::elapsed` reads the clock and gives the time since `start`:
/// nothing is promised of what it returns.
pub assume_specification[ std::time::Instant::elapsed ](start: &std::time::Instant) -> (passed:
    std::time::Duration)
;

/// `Duration::as_millis` gives the whole milliseconds of a duration. The
/// engine only compares the number with its budget, so nothing is claimed
/// of it.
pub assume_specification[ std::time::Duration::as_millis ](span: &std::time::Duration) -> (millis:
    u128)
;

} // verus!
