//! Random numbers from the thread's generator, for the weak levels' human
//! mistakes and for the opening book. Nothing is claimed of them but their range.
use vstd::prelude::*;
use rand::Rng;

verus! {

/// rand's `Rng::gen_range` on `lo..=hi` with `thread_rng()`: a number in
/// that range (rand panics on an empty range, which `requires` leaves out).
#[verifier::external_body]
pub(crate) fn random_in(lo: i32, hi: i32) -> (r: i32)
    requires
        lo <= hi,
    ensures
        lo <= r <= hi,
{
    rand::thread_rng().gen_range(lo..=hi)
}

/// rand's `Rng::gen_range` on `0..n` with `thread_rng()`: a number below `n`
/// (rand panics on an empty range, which `requires` leaves out).
#[verifier::external_body]
pub(crate) fn random_below(n: u128) -> (r: u128)
    requires
        n > 0,
    ensures
        r < n,
{
    rand::thread_rng().gen_range(0..n)
}

} // verus!
