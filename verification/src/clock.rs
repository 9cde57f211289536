//! The time, for timings and for the engine's thinking budget. Nothing is
//! claimed of what the clock reads.
use vstd::prelude::*;
use std::time::Instant;

verus! {

#[verifier::external_type_specification]
#[verifier::external_body]
pub struct ExInstant(Instant);

/// std's `Instant::now`: the current time (nothing is claimed of it).
#[verifier::external_body]
pub(crate) fn instant_now() -> Instant {
    Instant::now()
}

/// std's `Instant::elapsed`: the time since `start` (nothing is claimed of
/// it).
#[verifier::external_body]
pub(crate) fn elapsed(start: &Instant) -> std::time::Duration {
    start.elapsed()
}

/// std's `Instant::elapsed`, in whole milliseconds: the time since `start`
/// (nothing is claimed of it).
#[verifier::external_body]
pub(crate) fn elapsed_millis(start: &Instant) -> u128 {
    start.elapsed().as_millis()
}

} // verus!
