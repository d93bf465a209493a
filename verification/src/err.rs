//! Errors reported by channel operations.

use vstd::prelude::*;

verus! {

/// Error returned by a non-blocking receive probe.
#[derive(Clone, Copy, Debug, PartialEq, Eq, Structural)]
pub enum TryRecvError {
    /// The channel holds no deliverable message right now; trying again
    /// later may succeed.
    Empty,
    /// The channel can never deliver again. A periodic channel never
    /// reports this; the variant exists for parity with channel flavors
    /// that can terminate.
    Disconnected,
}

/// Error returned by a blocking receive with an optional deadline.
#[derive(Clone, Copy, Debug, PartialEq, Eq, Structural)]
pub enum RecvTimeoutError {
    /// The caller's deadline elapsed before a message became deliverable.
    Timeout,
    /// The channel can never deliver again. A periodic channel never
    /// reports this; the variant exists for parity with channel flavors
    /// that can terminate.
    Disconnected,
}

} // verus!
