//! A channel that delivers messages periodically.
//!
//! Nothing is ever sent into this kind of channel: messages materialize by
//! the passage of time. A channel constructed with a period delivers its
//! first message one period after construction and every following message
//! one period after the previous one, each to exactly one of the receivers
//! racing for it. The payload of a message is the instant it was scheduled
//! for, not the instant it was picked up.
//!
//! Every timestamp in this crate is a number of nanoseconds measured from
//! the instant the channel was constructed (its anchor).

pub mod cell;
pub mod clock;
pub mod err;
pub mod select;
pub mod tick;
