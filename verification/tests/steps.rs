//! Deterministic tests of the probe and wait decisions, on concrete
//! observations. Timestamps are nanoseconds since a channel's construction.

use tick_channel::select::Token;
use tick_channel::tick::{empty_check, len_check, ready_check, try_step, wait_step, RecvStep, TryStep};

#[test]
fn probe_before_first_tick_is_empty() {
    // Period 100ms, observed 50ms after construction: nothing due.
    assert_eq!(
        try_step(50_000_000, 100_000_000, 100_000_000),
        TryStep::Empty
    );
}

#[test]
fn probe_after_first_tick_claims_the_scheduled_instant() {
    // Period 100ms, observed 150ms after construction: the 100ms tick is
    // due; the claim carries the scheduled instant, not the clock reading,
    // and advances the delivery time to exactly 200ms.
    assert_eq!(
        try_step(150_000_000, 100_000_000, 100_000_000),
        TryStep::Claim {
            claimed: 100_000_000,
            next: 200_000_000,
        }
    );
}

#[test]
fn probe_right_after_a_claim_is_empty_again() {
    // Still at 150ms, the delivery time now stands at 200ms: empty.
    assert_eq!(
        try_step(150_000_000, 200_000_000, 100_000_000),
        TryStep::Empty
    );
}

#[test]
fn zero_period_is_ready_at_construction() {
    // Period zero: the first tick is due at the construction instant, and
    // claiming it schedules the next one at the same instant.
    assert_eq!(
        try_step(0, 0, 0),
        TryStep::Claim {
            claimed: 0,
            next: 0,
        }
    );
}

#[test]
fn probe_timing_never_perturbs_the_claimed_value() {
    // However late the poll, the claim delivers the tick that was due and
    // advances by one period from it — intermediate ticks stay queued.
    let late = try_step(1_000_000_000, 100_000_000, 100_000_000);
    assert_eq!(
        late,
        TryStep::Claim {
            claimed: 100_000_000,
            next: 200_000_000,
        }
    );
}

#[test]
fn probe_at_the_end_of_the_timeline_is_empty() {
    // A delivery time that cannot advance by a full period without leaving
    // the timeline is never claimed.
    assert_eq!(try_step(u64::MAX, u64::MAX, 1), TryStep::Empty);
    assert_eq!(
        try_step(u64::MAX, u64::MAX, 0),
        TryStep::Claim {
            claimed: u64::MAX,
            next: u64::MAX,
        }
    );
}

#[test]
fn wait_times_out_once_the_deadline_has_passed() {
    assert_eq!(wait_step(60, 100, Some(50)), RecvStep::Timeout);
    assert_eq!(wait_step(50, 100, Some(50)), RecvStep::Timeout);
}

#[test]
fn wait_sleeps_to_the_earlier_of_delivery_and_deadline() {
    // Deadline before the delivery: sleep exactly to the deadline.
    assert_eq!(wait_step(5, 100, Some(50)), RecvStep::Sleep(45));
    // Delivery before the deadline: sleep exactly to the delivery.
    assert_eq!(wait_step(5, 100, Some(300)), RecvStep::Sleep(95));
    // No deadline: sleep to the delivery.
    assert_eq!(wait_step(30, 100, None), RecvStep::Sleep(70));
}

#[test]
fn wait_after_a_lost_race_sleeps_zero() {
    // The observation was stale (the tick was due but another receiver
    // claimed it): the computed sleep saturates at zero and the caller
    // re-observes at once.
    assert_eq!(wait_step(150, 100, None), RecvStep::Sleep(0));
    assert_eq!(wait_step(150, 100, Some(400)), RecvStep::Sleep(0));
}

#[test]
fn wait_without_deadline_never_times_out() {
    assert_eq!(wait_step(u64::MAX, 0, None), RecvStep::Sleep(0));
}

#[test]
fn token_starts_without_a_value() {
    let t = Token::new();
    assert_eq!(t.tick, None);
}

#[test]
fn emptiness_and_readiness_are_complementary() {
    // Same observation, complementary answers, at the boundary too.
    assert!(empty_check(50, 100));
    assert!(!ready_check(50, 100));
    assert!(!empty_check(100, 100));
    assert!(ready_check(100, 100));
    assert!(!empty_check(150, 100));
    assert!(ready_check(150, 100));
}

#[test]
fn occupancy_is_zero_exactly_when_empty() {
    assert_eq!(len_check(50, 100), 0);
    assert_eq!(len_check(100, 100), 1);
    assert_eq!(len_check(150, 100), 1);
    assert_eq!(len_check(0, 0), 1);
}
