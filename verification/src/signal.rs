//! What ends a round from outside a worker: the stop signal, one flag that
//! every worker reads before each hash and that a worker raises when it
//! crosses the threshold, and the deadline, which a worker checks only where
//! the caller asks for it. The flag only ever goes from unset to set, so
//! raising it twice is the same as once.

use std::sync::atomic::AtomicBool;
use std::sync::atomic::Ordering;
use std::time::Instant;
use vstd::prelude::*;

verus! {

/// `std::time::Instant`: a point on the monotonic clock.
#[verifier::external_type_specification]
#[verifier::external_body]
pub struct ExInstant(Instant);

/// Reads the flag. What comes back depends on what other workers have done
/// by now, so nothing is promised of it.
pub(crate) fn stop_requested(stop: &AtomicBool) -> bool {
    stop.load(Ordering::Relaxed)
}

/// Raises the flag for every worker of the round.
pub(crate) fn request_stop(stop: &AtomicBool) {
    stop.store(true, Ordering::Relaxed);
}

/// Reads the monotonic clock, by `Instant::now`. Two readings differ, so
/// nothing is promised of one.
#[verifier::external_body]
pub(crate) fn now() -> Instant {
    Instant::now()
}

/// Whether `at` is no earlier than `deadline`, by `>=` on `Instant`.
#[verifier::external_body]
pub(crate) fn reached(at: &Instant, deadline: &Instant) -> bool {
    at >= deadline
}

} // verus!
