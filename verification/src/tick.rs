//! The periodic channel: its claim protocol and its timing logic.
//!
//! One atomic word holds the next delivery instant, in nanoseconds since
//! the channel's construction. A receiver claims a tick by reading the
//! clock, reading that word, and — when the tick is due — advancing the
//! word by exactly one period with a compare-and-swap. The swap succeeds
//! for exactly one of the receivers racing for a tick; the losers retry
//! against the advanced word. Because the word advances from the value
//! that was consumed, never from the clock, the delivered instants stand
//! on a fixed schedule that polling jitter cannot perturb.

use vstd::prelude::*;
use vstd::arithmetic::div_mod::{
    lemma_div_is_ordered,
    lemma_div_multiples_vanish,
    lemma_fundamental_div_mod,
    lemma_mod_bound,
};
use vstd::arithmetic::mul::lemma_mul_inequality;
use std::time::Instant;
use crossbeam_utils::atomic::AtomicCell;
use crate::cell::{cell_compare_exchange, cell_load, cell_new};
use crate::clock::{elapsed_nanos, instant_now};
use crate::err::TryRecvError;
use crate::select::{Context, Operation, SelectHandle, Token};

verus! {

/// True when a channel whose next delivery is due at `delivery_time` has a
/// message ready at time `now`.
pub open spec fn ready_at(now: u64, delivery_time: u64) -> bool {
    now >= delivery_time
}

/// True when the channel holds no deliverable message at time `now`.
pub open spec fn empty_at(now: u64, delivery_time: u64) -> bool {
    !ready_at(now, delivery_time)
}

/// True when the channel holds its one deliverable message at time `now`.
pub open spec fn full_at(now: u64, delivery_time: u64) -> bool {
    !empty_at(now, delivery_time)
}

/// The channel's occupancy at time `now`: a single pending tick or nothing.
pub open spec fn len_at(now: u64, delivery_time: u64) -> nat {
    if empty_at(now, delivery_time) {
        0nat
    } else {
        1nat
    }
}

/// Decides emptiness from an observation of the clock (`now`) and of the
/// shared delivery time: empty exactly while the next tick is not due.
pub fn empty_check(now: u64, delivery_time: u64) -> (r: bool)
    ensures
        r == empty_at(now, delivery_time),
{
    now < delivery_time
}

/// Decides readiness from the same observation: the executable complement
/// of `empty_check`, for a full channel is exactly a ready one.
pub fn ready_check(now: u64, delivery_time: u64) -> (r: bool)
    ensures
        r == ready_at(now, delivery_time),
        r == full_at(now, delivery_time),
        r == !empty_at(now, delivery_time),
{
    !empty_check(now, delivery_time)
}

/// Decides the occupancy from the same observation: zero exactly on an
/// empty observation, one on a full one, never more.
pub fn len_check(now: u64, delivery_time: u64) -> (n: usize)
    ensures
        n == len_at(now, delivery_time),
        n == 0 <==> empty_at(now, delivery_time),
        n == 1 <==> full_at(now, delivery_time),
{
    if empty_check(now, delivery_time) {
        0
    } else {
        1
    }
}

/// True when the delivery time can advance by one more period without
/// leaving the nanosecond timeline.
pub open spec fn can_advance(delivery_time: u64, duration: u64) -> bool {
    delivery_time + duration <= u64::MAX
}

/// The instant at which tick number `k` (counting from zero) is scheduled:
/// the first tick one period after construction, every later tick one
/// period after its predecessor.
pub open spec fn scheduled(duration: u64, k: nat) -> int {
    (k as int + 1) * (duration as int)
}

/// What one non-blocking probe does, given an observation of the clock and
/// of the shared delivery time.
#[derive(Clone, Copy, Debug, PartialEq, Eq, Structural)]
pub enum TryStep {
    /// The tick is not due yet (or its successor would not fit on the
    /// timeline): report empty, touch nothing.
    Empty,
    /// The tick is due: attempt to swap `claimed` for `next`, and deliver
    /// `claimed` if the swap wins.
    Claim { claimed: u64, next: u64 },
}

/// The probe decision as a function of the observation alone. The claimed
/// value is the delivery time that was due — never the clock reading — and
/// the advanced value exceeds it by exactly one period.
pub open spec fn try_decision(now: u64, delivery_time: u64, duration: u64) -> TryStep {
    if ready_at(now, delivery_time) && can_advance(delivery_time, duration) {
        TryStep::Claim { claimed: delivery_time, next: (delivery_time + duration) as u64 }
    } else {
        TryStep::Empty
    }
}

/// Decides one non-blocking probe from an observation of the clock
/// (`now`) and of the shared delivery time. Pure: callers resolve the
/// decided claim against the shared word.
pub fn try_step(now: u64, delivery_time: u64, duration: u64) -> (r: TryStep)
    ensures
        r == try_decision(now, delivery_time, duration),
{
    if now < delivery_time {
        TryStep::Empty
    } else if duration <= u64::MAX - delivery_time {
        TryStep::Claim { claimed: delivery_time, next: delivery_time + duration }
    } else {
        TryStep::Empty
    }
}

/// What one blocking-receive iteration does after its claim attempt did
/// not go through.
#[derive(Clone, Copy, Debug, PartialEq, Eq, Structural)]
pub enum RecvStep {
    /// A tick was claimed: deliver its scheduled instant.
    Ready(u64),
    /// The caller's deadline has passed: give up without touching shared
    /// state.
    Timeout,
    /// Suspend the calling thread for this many nanoseconds, then observe
    /// everything afresh: a sleep is advisory, never a claim.
    Sleep(u64),
}

/// `a - b`, floored at zero.
pub open spec fn sub_saturating(a: u64, b: u64) -> u64 {
    if a >= b {
        (a - b) as u64
    } else {
        0u64
    }
}

/// The smaller of `a` and `b`.
pub open spec fn min_u64(a: u64, b: u64) -> u64 {
    if a <= b {
        a
    } else {
        b
    }
}

/// The wait decision as a function of the observation alone: time out once
/// the deadline has passed, otherwise sleep until the earlier of the next
/// delivery and the deadline.
pub open spec fn wait_decision(now: u64, delivery_time: u64, deadline: Option<u64>) -> RecvStep {
    match deadline {
        Some(d) => if now >= d {
            RecvStep::Timeout
        } else {
            RecvStep::Sleep(sub_saturating(min_u64(delivery_time, d), now))
        },
        None => RecvStep::Sleep(sub_saturating(delivery_time, now)),
    }
}

/// Decides how a blocking receive goes on once its claim attempt has not
/// delivered: by the same observation of the clock and the shared delivery
/// time that the attempt used.
pub fn wait_step(now: u64, delivery_time: u64, deadline: Option<u64>) -> (r: RecvStep)
    ensures
        r == wait_decision(now, delivery_time, deadline),
{
    match deadline {
        Some(d) => {
            if now >= d {
                RecvStep::Timeout
            } else {
                let target: u64 = if delivery_time <= d {
                    delivery_time
                } else {
                    d
                };
                if target >= now {
                    RecvStep::Sleep(target - now)
                } else {
                    RecvStep::Sleep(0)
                }
            }
        },
        None => {
            if delivery_time >= now {
                RecvStep::Sleep(delivery_time - now)
            } else {
                RecvStep::Sleep(0)
            }
        },
    }
}

/// Channel that delivers messages periodically.
///
/// Messages cannot be sent into it: the passage of time materializes them,
/// one per period, each delivered to exactly one receiver. The message is
/// the instant the tick was scheduled for — in nanoseconds since the
/// channel's construction — not the instant it was picked up.
pub struct Channel {
    /// The instant at which the next message will be delivered, in
    /// nanoseconds since `anchor`. Shared with every thread holding a
    /// reference to the channel; mutated only by compare-and-swap.
    delivery_time: AtomicCell<u64>,
    /// The time interval in which messages get delivered, in nanoseconds.
    duration: u64,
    /// The construction instant: the zero point of the channel's timeline.
    anchor: Instant,
}

impl Channel {
    /// The channel's period, in nanoseconds.
    pub closed spec fn spec_duration(&self) -> u64 {
        self.duration
    }

    /// Creates a channel that delivers messages periodically.
    ///
    /// The first tick is scheduled one period after the construction
    /// instant, so the fresh channel is empty exactly as long as the
    /// period is positive; a zero period makes it ready at once and on
    /// every later probe.
    pub fn new(duration: u64) -> (c: Channel)
        ensures
            c.spec_duration() == duration,
    {
        Channel {
            delivery_time: cell_new(duration),
            duration: duration,
            anchor: instant_now(),
        }
    }

    /// The channel's period, in nanoseconds.
    pub fn duration(&self) -> (d: u64)
        ensures
            d == self.spec_duration(),
    {
        self.duration
    }

    /// The instant the channel was constructed: every timestamp the
    /// channel takes or returns counts nanoseconds from here.
    pub fn anchor(&self) -> &Instant {
        &self.anchor
    }

    /// Attempts to receive a message without blocking.
    ///
    /// Observes the clock and the shared delivery time and follows
    /// `try_decision`: report `Empty` while the tick is not due, otherwise
    /// race for it with one compare-and-swap and retry only after losing
    /// the race to another receiver — so a returned tick was claimed by
    /// this call and by nobody else. Which outcome comes back depends on
    /// the clock and on the other receivers; what cannot come back is an
    /// error other than `Empty`, for a periodic channel never disconnects.
    ///
    /// Every lost race is another receiver's claim, so retries are bounded
    /// by contention. The retry budget exists only to give the loop a
    /// measure: exhausting it takes more lost races than the channel's
    /// timeline has nanoseconds, so the `Empty` it would report — the
    /// always-retryable answer — is unreachable in practice.
    ///
    /// A delivered tick always fits the timeline with one period to spare:
    /// a claim only happens where the next delivery time still exists.
    pub fn try_recv(&self) -> (r: Result<u64, TryRecvError>)
        ensures
            r matches Err(e) ==> e == TryRecvError::Empty,
            r matches Ok(v) ==> v + self.spec_duration() <= u64::MAX,
    {
        let mut budget: u64 = u64::MAX;
        loop
            decreases budget,
        {
            let now: u64 = elapsed_nanos(&self.anchor);
            let observed: u64 = cell_load(&self.delivery_time);
            match try_step(now, observed, self.duration) {
                TryStep::Empty => {
                    return Err(TryRecvError::Empty);
                },
                TryStep::Claim { claimed, next } => {
                    if cell_compare_exchange(&self.delivery_time, claimed, next).is_ok() {
                        return Ok(claimed);
                    }
                },
            }
            if budget == 0 {
                return Err(TryRecvError::Empty);
            }
            budget = budget - 1;
        }
    }

    /// One iteration of a blocking receive: a single claim attempt, then —
    /// if nothing was claimed — the `wait_decision` on the same
    /// observation. The caller performs the decided sleep and calls again;
    /// the sleep is advisory, and the next iteration re-observes everything
    /// rather than assume readiness. Timeout is decided by the caller's
    /// deadline alone, so it can only come back when a deadline was given;
    /// and a sleep decided under a deadline never reaches past it, so a
    /// caller that performs the decided sleeps observes its deadline on
    /// time. A delivered tick fits the timeline with one period to spare.
    pub fn recv_step(&self, deadline: Option<u64>) -> (r: RecvStep)
        ensures
            r matches RecvStep::Timeout ==> deadline is Some,
            deadline matches Some(d) ==> (r matches RecvStep::Sleep(ns) ==> ns <= d),
            r matches RecvStep::Ready(v) ==> v + self.spec_duration() <= u64::MAX,
    {
        let now: u64 = elapsed_nanos(&self.anchor);
        let observed: u64 = cell_load(&self.delivery_time);
        match try_step(now, observed, self.duration) {
            TryStep::Claim { claimed, next } => {
                if cell_compare_exchange(&self.delivery_time, claimed, next).is_ok() {
                    return RecvStep::Ready(claimed);
                }
            },
            TryStep::Empty => {},
        }
        wait_step(now, observed, deadline)
    }

    /// Reads a message out of a token that a selection attempt filled:
    /// the claimed instant if the token holds one, failure for the token
    /// of a disconnected channel — which a periodic channel never writes,
    /// but the selection protocol must be able to read.
    pub fn read(&self, token: &mut Token) -> (r: Result<u64, ()>)
        ensures
            *final(token) == *old(token),
            old(token).tick matches Some(v) ==> r == Ok::<u64, ()>(v),
            old(token).tick is None ==> r == Err::<u64, ()>(()),
    {
        match token.tick {
            Some(v) => Ok(v),
            None => Err(()),
        }
    }

    /// Returns `true` if the channel is empty: one observation of the
    /// clock against the shared delivery time, decided by `empty_check`,
    /// and stale the moment it is returned.
    pub fn is_empty(&self) -> bool {
        let now: u64 = elapsed_nanos(&self.anchor);
        let observed: u64 = cell_load(&self.delivery_time);
        empty_check(now, observed)
    }

    /// Returns `true` if the channel is full: the complement of emptiness
    /// at one observation, decided by `ready_check`, for the channel holds
    /// at most one tick and holds it exactly when it is due.
    pub fn is_full(&self) -> bool {
        let now: u64 = elapsed_nanos(&self.anchor);
        let observed: u64 = cell_load(&self.delivery_time);
        ready_check(now, observed)
    }

    /// Returns the number of messages in the channel: the occupancy of one
    /// observation, decided by `len_check` — zero exactly on an empty
    /// observation, never more than the one pending tick.
    pub fn len(&self) -> (n: usize)
        ensures
            n <= 1,
    {
        let now: u64 = elapsed_nanos(&self.anchor);
        let observed: u64 = cell_load(&self.delivery_time);
        len_check(now, observed)
    }

    /// Returns the capacity of the channel: always one, for ticks are
    /// claimed as soon as they are due, never queued.
    pub fn capacity(&self) -> (c: Option<usize>)
        ensures
            c == Some(1usize),
    {
        Some(1)
    }
}

/// Law: a fresh channel is empty exactly when its period is positive.
/// Observed at the construction instant itself (zero nanoseconds elapsed,
/// first tick due at `duration`), a positive period leaves nothing due,
/// and a zero period has the first tick — scheduled at the construction
/// instant — due at once.
pub proof fn lemma_fresh_channel(duration: u64)
    ensures
        scheduled(duration, 0) == duration,
        empty_at(0, duration) <==> duration > 0,
        duration > 0 ==> try_decision(0, duration, duration) == TryStep::Empty,
        duration == 0 ==> try_decision(0, duration, duration) == (TryStep::Claim {
            claimed: 0u64,
            next: 0u64,
        }),
{
}

/// Law: the scheduled ticks form an arithmetic sequence with common
/// difference `duration`, starting one period after construction, and for
/// a positive period the sequence is strictly increasing — so no two
/// distinct ticks are ever delivered as the same instant. A zero period
/// schedules every tick at the construction instant itself.
pub proof fn lemma_delivery_sequence(duration: u64, i: nat, j: nat)
    requires
        i < j,
    ensures
        scheduled(duration, 0) == duration,
        scheduled(duration, i + 1) == scheduled(duration, i) + duration,
        duration > 0 ==> scheduled(duration, i) < scheduled(duration, j),
{
    assert((i as int + 2) * (duration as int) == (i as int + 1) * (duration as int) + duration)
        by (nonlinear_arith);
    if duration > 0 {
        assert((i as int + 1) * (duration as int) < (j as int + 1) * (duration as int))
            by (nonlinear_arith)
            requires
                i < j,
                duration > 0,
        ;
    }
}

/// Law: over a span of `t` nanoseconds from construction, the ticks that
/// fall due are exactly the first `t / duration` of them: tick `k` is due
/// within the span if and only if `k < t / duration`. This is the counting
/// half of "k elapsed periods yield k deliveries"; that each due tick goes
/// to exactly one receiver is the compare-and-swap's single-winner
/// guarantee, which the claim protocol builds on.
pub proof fn lemma_ticks_in_span(duration: u64, t: u64, k: nat)
    requires
        duration > 0,
    ensures
        scheduled(duration, k) <= t <==> k < (t as int) / (duration as int),
{
    let d: int = duration as int;
    let n: int = k as int + 1;
    if scheduled(duration, k) <= t {
        lemma_div_is_ordered(n * d, t as int, d);
        lemma_div_multiples_vanish(n, d);
        assert(n * d == d * n) by (nonlinear_arith);
    }
    if k < (t as int) / d {
        lemma_mul_inequality(n, (t as int) / d, d);
        lemma_fundamental_div_mod(t as int, d);
        lemma_mod_bound(t as int, d);
        assert(((t as int) / d) * d == d * ((t as int) / d)) by (nonlinear_arith);
    }
}

/// Law: a claim hands out exactly the tick that was due and schedules the
/// next tick one full period later. The clock reading plays no part in
/// either value: scheduling jitter decides which caller wins a tick, never
/// which instant the tick carries. So, from a delivery time standing on
/// the schedule at tick `k`, a successful claim delivers
/// `scheduled(duration, k)` and leaves `scheduled(duration, k + 1)` behind
/// — the delivery time never moves backward.
pub proof fn lemma_claim_advances_schedule(now: u64, delivery_time: u64, duration: u64, k: nat)
    requires
        delivery_time == scheduled(duration, k),
        ready_at(now, delivery_time),
        can_advance(delivery_time, duration),
    ensures
        try_decision(now, delivery_time, duration) == (TryStep::Claim {
            claimed: delivery_time,
            next: (delivery_time + duration) as u64,
        }),
        delivery_time + duration == scheduled(duration, k + 1),
        delivery_time <= delivery_time + duration,
{
    assert((k as int + 2) * (duration as int) == (k as int + 1) * (duration as int) + duration)
        by (nonlinear_arith);
}

/// Law: a deadline set before the next delivery preempts it. While the
/// tick is not due, no iteration claims — the probe decision is `Empty`,
/// so shared state is left untouched; an iteration at or past the deadline
/// reports timeout; and an earlier iteration sleeps exactly to the
/// deadline, strictly short of the delivery instant — so a receiver whose
/// sleeps do not overshoot reaches the deadline, and times out, first.
pub proof fn lemma_deadline_preempts_delivery(now: u64, delivery_time: u64, duration: u64, d: u64)
    requires
        d < delivery_time,
        now < delivery_time,
    ensures
        try_decision(now, delivery_time, duration) == TryStep::Empty,
        now >= d ==> wait_decision(now, delivery_time, Some(d)) == RecvStep::Timeout,
        now < d ==> wait_decision(now, delivery_time, Some(d)) == RecvStep::Sleep(
            (d - now) as u64,
        ),
        now < d ==> now + sub_saturating(d, now) < delivery_time,
{
}

/// Law: the introspection views agree at every observation. Emptiness and
/// fullness are complementary, the length is the occupancy zero or one and
/// vanishes exactly on the empty channel, and fullness is the same thing
/// as readiness.
pub proof fn lemma_occupancy(now: u64, delivery_time: u64)
    ensures
        empty_at(now, delivery_time) <==> !full_at(now, delivery_time),
        len_at(now, delivery_time) <= 1,
        len_at(now, delivery_time) == 0 <==> empty_at(now, delivery_time),
        full_at(now, delivery_time) <==> ready_at(now, delivery_time),
{
}

impl SelectHandle for Channel {
    /// One non-blocking take attempt on behalf of a selector: a claimed
    /// tick goes into the token, so a `true` return always leaves a value
    /// there; `false` reports "not ready" and leaves the token alone. The
    /// disconnected arm would write an empty token for interface parity,
    /// but `try_recv` never reports disconnection, so it is dead code.
    fn try_select(&self, token: &mut Token) -> (r: bool)
        ensures
            r ==> final(token).tick is Some,
    {
        match self.try_recv() {
            Ok(msg) => {
                token.tick = Some(msg);
                true
            },
            Err(TryRecvError::Disconnected) => {
                token.tick = None;
                true
            },
            Err(TryRecvError::Empty) => false,
        }
    }

    /// The shared delivery time, handed to the selector as the instant by
    /// which this channel is worth re-polling. A periodic channel always
    /// has one: readiness here is a function of the clock, never of an
    /// event, so the hint is the selector's only cue.
    fn deadline(&self) -> (r: Option<u64>)
        ensures
            r is Some,
    {
        Some(cell_load(&self.delivery_time))
    }

    /// No event ever signals this channel — readiness is a pure function
    /// of the clock — so registration only reports the readiness of one
    /// observation, decided by `ready_check`; the selector must poll again
    /// by `deadline`.
    fn register(&self, _oper: Operation, _cx: &Context) -> (r: bool) {
        let now: u64 = elapsed_nanos(&self.anchor);
        let observed: u64 = cell_load(&self.delivery_time);
        ready_check(now, observed)
    }

    /// Nothing was registered, so nothing is withdrawn.
    fn unregister(&self, _oper: Operation) {
    }

    /// Committing a take is the same single atomic step as probing one:
    /// the two phases of the protocol coincide for this flavor, so a
    /// `true` return leaves the claimed value in the token just as
    /// `try_select` does.
    fn accept(&self, token: &mut Token, _cx: &Context) -> (r: bool)
        ensures
            r ==> final(token).tick is Some,
    {
        self.try_select(token)
    }

    /// Ready exactly when not empty: the readiness of one observation,
    /// decided by `ready_check` — the one pending tick is due.
    fn is_ready(&self) -> (r: bool) {
        let now: u64 = elapsed_nanos(&self.anchor);
        let observed: u64 = cell_load(&self.delivery_time);
        ready_check(now, observed)
    }

    /// Watching is registration under another name for this flavor: it
    /// reports the readiness of one observation and subscribes to nothing.
    fn watch(&self, _oper: Operation, _cx: &Context) -> (r: bool) {
        let now: u64 = elapsed_nanos(&self.anchor);
        let observed: u64 = cell_load(&self.delivery_time);
        ready_check(now, observed)
    }

    /// Nothing was watched, so nothing is unwatched.
    fn unwatch(&self, _oper: Operation) {
    }
}

} // verus!
