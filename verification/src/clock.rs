//! What this library assumes of `std::time`: a duration is a number of
//! nanoseconds, and the system clock can be read.

use std::time::Duration;
use std::time::SystemTime;
use vstd::prelude::*;

verus! {

/// A point in time as the standard library holds it. Nothing here looks inside
/// one: a start time is carried from the caller to the configuration as it is.
#[verifier::external_type_specification]
#[verifier::external_body]
pub struct ExSystemTime(SystemTime);

/// The length of a duration in nanoseconds: the number that
/// `Duration::as_nanos` returns for it.
pub uninterp spec fn duration_nanos(d: Duration) -> u128;

/// `Duration::as_nanos`: the total number of nanoseconds that the duration
/// holds. Assumed, not proved: the result is the duration's length.
pub assume_specification[ Duration::as_nanos ](d: &Duration) -> (nanos: u128)
    ensures
        nanos == duration_nanos(*d),
;

/// `SystemTime::now`: the system clock's reading. Nothing is assumed of it,
/// since it differs from call to call.
pub assume_specification[ SystemTime::now ]() -> (now: SystemTime)
;

} // verus!
