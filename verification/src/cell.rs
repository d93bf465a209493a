//! The shared atomic word, behind trusted declarations.
//!
//! The channel's one piece of shared mutable state is a
//! `crossbeam_utils::atomic::AtomicCell<u64>` holding the next delivery
//! instant. Other threads mutate it through a shared reference, so a load
//! can return something different on every call; the only promise worth
//! stating — and the one the whole claim protocol rests on — is what
//! `compare_exchange` says about its own result.

use vstd::prelude::*;
use crossbeam_utils::atomic::AtomicCell;

verus! {

/// `crossbeam_utils::atomic::AtomicCell<T>`, declared so that a channel can
/// hold one. Its contents are opaque to the verifier: they belong to every
/// thread that shares the cell.
#[verifier::external_type_specification]
#[verifier::external_body]
#[verifier::reject_recursive_types(T)]
pub struct ExAtomicCell<T>(AtomicCell<T>);

/// Relies on `AtomicCell::new`: a fresh cell holding `v`.
#[verifier::external_body]
pub(crate) fn cell_new(v: u64) -> (c: AtomicCell<u64>) {
    AtomicCell::new(v)
}

/// Relies on `AtomicCell::load`: some value the cell held at the moment of
/// the call. Concurrent writers may change the cell between any two calls,
/// so no clause relates the result to anything.
#[verifier::external_body]
pub(crate) fn cell_load(c: &AtomicCell<u64>) -> (r: u64) {
    c.load()
}

/// Relies on `AtomicCell::compare_exchange`: stores `new` if and only if
/// the cell held `current`, and returns the previous value — equal to
/// `current` exactly when the store happened. This is the one atomic step
/// by which a tick is claimed.
#[verifier::external_body]
pub(crate) fn cell_compare_exchange(c: &AtomicCell<u64>, current: u64, new: u64) -> (r: Result<
    u64,
    u64,
>)
    ensures
        r matches Ok(prev) ==> prev == current,
        r matches Err(prev) ==> prev != current,
{
    c.compare_exchange(current, new)
}

} // verus!
