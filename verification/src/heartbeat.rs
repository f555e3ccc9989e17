//! The liveness rule of an autorun AI server.
//!
//! An autorun server expects the embedding application to send heartbeats; if none
//! arrives within the timeout, the server quits. Times come from a wrapping clock, so a
//! reading below the last heartbeat means the clock wrapped once since then.
//! Durations are given in nanoseconds.

use vstd::prelude::*;

verus! {

/// The largest duration the clock can represent, in nanoseconds.
pub const DURATION_MAX_NANOS: u128 = 18446744073709551615999999999u128;

/// The time elapsed since the last heartbeat, assuming at most one wrap of the clock.
pub open spec fn spec_heartbeat_delta(now: u128, last_tick: u128, wrap_period: u128) -> int {
    if now < last_tick {
        now + wrap_period - last_tick
    } else {
        now - last_tick
    }
}

/// Whether the server has gone without a heartbeat for longer than `timeout`.
///
/// `now` is the wrapped clock reading and `last_tick` the wrapped reading at the last
/// heartbeat; a reading below the last heartbeat is taken to be one wrap period later.
/// Note that with `timeout` at or above the wrap period, a timeout can never be seen.
pub fn heartbeat_timed_out(now: u128, last_tick: u128, wrap_period: u128, timeout: u128) -> (r: bool)
    requires
        now <= DURATION_MAX_NANOS,
        last_tick <= DURATION_MAX_NANOS,
        wrap_period <= DURATION_MAX_NANOS,
        now < last_tick ==> now + wrap_period <= DURATION_MAX_NANOS,
        now < last_tick ==> last_tick <= now + wrap_period,
    ensures
        r == (spec_heartbeat_delta(now, last_tick, wrap_period) > timeout),
{
    let now = if now < last_tick {
        now + wrap_period
    } else {
        now
    };
    let delta = now - last_tick;
    delta > timeout
}

} // verus!
