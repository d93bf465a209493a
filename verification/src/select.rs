//! The selection protocol: the capability contract every channel flavor
//! implements so that a generic multi-way selector can poll heterogeneous
//! channels uniformly.
//!
//! The selector itself lives outside this crate; here stand the vocabulary
//! types it exchanges with a channel and the trait it calls through.

use vstd::prelude::*;

verus! {

/// Per-attempt carrier of an optionally claimed delivery instant.
///
/// A successful `try_select` writes the claimed instant (in nanoseconds
/// since the channel's construction) into the token, so that the selector
/// can finalize the take with `read` without touching shared state again.
/// `None` stands for a channel that became disconnected, which a periodic
/// channel never does.
#[derive(Clone, Copy, Debug, PartialEq, Eq)]
pub struct Token {
    /// The claimed delivery instant, if the attempt claimed one.
    pub tick: Option<u64>,
}

impl Token {
    /// A token that carries nothing yet.
    pub fn new() -> (t: Token)
        ensures
            t.tick is None,
    {
        Token { tick: None }
    }
}

/// Identifier a selector assigns to one of its pending operations when it
/// registers interest with a channel.
#[derive(Clone, Copy, Debug, PartialEq, Eq, Structural)]
pub struct Operation {
    /// The selector's identifier for the operation.
    pub id: usize,
}

/// Handle on the selector's thread-parking state, passed to registration
/// calls. A periodic channel is purely deadline-pollable and never signals
/// a parked thread, so it reads nothing out of the context; the type is
/// kept opaque here and owned by the external selector.
#[derive(Clone, Copy, Debug, PartialEq, Eq, Structural)]
pub struct Context {
    /// The selector's identifier for the calling thread.
    pub thread_id: usize,
}

/// The capability set a channel flavor exposes to the multi-way selector.
///
/// `try_select` and `accept` are the two phases of the take protocol:
/// probe readiness and commit a claim. For a periodic channel the two
/// coincide, because claiming a tick is a single atomic step. A failed
/// attempt must leave the token untouched, so that a selector can reuse
/// one token across many candidate channels.
pub trait SelectHandle {
    /// Attempts to claim the channel's value; on success writes it into
    /// `token` and returns true, otherwise returns false and leaves the
    /// token as it was.
    fn try_select(&self, token: &mut Token) -> (r: bool)
        ensures
            !r ==> *final(token) == *old(token),
    ;

    /// The instant (in the channel's own nanosecond timeline) at which the
    /// channel expects to become ready, if it can tell.
    fn deadline(&self) -> (r: Option<u64>);

    /// Registers interest in the channel on behalf of `oper`, and reports
    /// whether the channel is ready right now.
    fn register(&self, oper: Operation, cx: &Context) -> (r: bool);

    /// Withdraws the interest registered for `oper`.
    fn unregister(&self, oper: Operation);

    /// Commits a previously probed claim; same obligations as `try_select`.
    fn accept(&self, token: &mut Token, cx: &Context) -> (r: bool)
        ensures
            !r ==> *final(token) == *old(token),
    ;

    /// Reports whether a take attempt would succeed right now.
    fn is_ready(&self) -> (r: bool);

    /// Starts watching the channel on behalf of `oper`, and reports
    /// whether the channel is ready right now.
    fn watch(&self, oper: Operation, cx: &Context) -> (r: bool);

    /// Stops watching the channel on behalf of `oper`.
    fn unwatch(&self, oper: Operation);
}

} // verus!
