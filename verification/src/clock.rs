//! The monotonic clock, behind trusted declarations.
//!
//! A channel anchors its timeline at the instant it was constructed and
//! measures everything after that as a number of elapsed nanoseconds. What
//! the clock reads out is decided by the machine, not by this library, so
//! nothing is promised about the values; the verified logic takes them as
//! arguments and holds for every reading.

use vstd::prelude::*;
use std::time::Instant;

verus! {

/// `std::time::Instant`, declared so that a channel can hold its anchor.
/// The value is opaque: the library only carries it and hands it to the
/// wrappers below.
#[verifier::external_type_specification]
#[verifier::external_body]
pub struct ExInstant(Instant);

/// Relies on `std::time::Instant::now`: an opaque reading of the monotonic
/// clock, taken at the moment of the call.
#[verifier::external_body]
pub(crate) fn instant_now() -> (r: Instant) {
    Instant::now()
}

/// Relies on `std::time::Instant::elapsed`: the time that has passed since
/// `anchor`, converted to whole nanoseconds and saturated at `u64::MAX`.
/// The reading depends on when the call happens, so no clause pins it down.
#[verifier::external_body]
pub(crate) fn elapsed_nanos(anchor: &Instant) -> (r: u64) {
    let nanos = anchor.elapsed().as_nanos();
    if nanos > u64::MAX as u128 {
        u64::MAX
    } else {
        nanos as u64
    }
}

} // verus!
