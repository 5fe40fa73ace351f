use crate::dur::Dur;
use crate::dur::MAX_DUR_NANOS;
use std::time::Instant;
use vstd::prelude::*;

verus! {

/// `std::time::Instant`, declared opaquely. A value is one reading of the
/// process's monotonic clock; it only serves as the fixed point that later
/// readings are measured against.
#[verifier::external_type_specification]
#[verifier::external_body]
pub struct ExInstant(Instant);

/// Relies on `std::time::Instant::now`: a fresh reading of the monotonic
/// clock. Nothing is assumed of the value itself; all arithmetic happens on
/// the spans handed out by `monotonic_distance`.
pub assume_specification[ Instant::now ]() -> (r: Instant);

/// Relies on `std::time::Instant::duration_since`: the span from `earlier`
/// to `later`, or zero where `earlier` is in fact the later reading. The
/// result is bounded by the largest `std::time::Duration`, `u64::MAX`
/// seconds plus a sub-second remainder.
#[verifier::external_body]
pub(crate) fn monotonic_distance(later: &Instant, earlier: &Instant) -> (d: Dur)
    ensures
        d@ <= MAX_DUR_NANOS,
{
    Dur { nanos: later.duration_since(*earlier).as_nanos() }
}

/// Relies on `std::time::SystemTime::now` and
/// `SystemTime::duration_since(UNIX_EPOCH)`: the wall clock, as the span
/// since the UNIX reference instant, bounded like any `std::time::Duration`.
/// Aborts the process where the system clock reads before that instant:
/// that is an unrecoverable environment fault, not a normal error path.
#[verifier::external_body]
pub(crate) fn wall_clock_since_unix() -> (d: Dur)
    ensures
        d@ <= MAX_DUR_NANOS,
{
    let since = std::time::SystemTime::now().duration_since(std::time::UNIX_EPOCH).unwrap();
    Dur { nanos: since.as_nanos() }
}

} // verus!
