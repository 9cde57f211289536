//! The flag that another thread sets to stop a search early. What it reads
//! is up to that thread, so nothing is known of it.
use vstd::prelude::*;
use std::sync::Arc;
use std::sync::atomic::AtomicBool;
use std::sync::atomic::Ordering;

verus! {

/// A new flag, not set.
pub fn new_flag() -> Arc<AtomicBool> {
    Arc::new(AtomicBool::new(false))
}

/// Whether the flag is set now.
pub fn is_set(flag: &Arc<AtomicBool>) -> bool {
    flag.load(Ordering::Relaxed)
}

/// Sets or clears the flag.
pub fn set_flag(flag: &Arc<AtomicBool>, value: bool) {
    flag.store(value, Ordering::Relaxed)
}

/// std's `Arc::clone`: another handle on the same flag (the same
/// allocation, so the same value).
#[verifier::external_body]
pub(crate) fn share(flag: &Arc<AtomicBool>) -> (r: Arc<AtomicBool>)
    ensures
        r == *flag,
{
    Arc::clone(flag)
}

} // verus!
