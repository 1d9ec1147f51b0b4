//! Fixed intervals and deadlines, and time differences on the caller's clock.
//!
//! Times are readings of one monotonic clock in milliseconds; the caller picks
//! the clock's origin.

use vstd::prelude::*;

verus! {

/// Pause between two connection attempts while waiting for readiness.
pub const READY_POLL_INTERVAL_MS: u64 = 120;

/// How long a freshly spawned backend is given to accept connections.
pub const READY_TIMEOUT_MS: u64 = 6000;

/// Pause between two looks at the exit status during a graceful shutdown.
pub const EXIT_POLL_INTERVAL_MS: u64 = 100;

/// How long a signalled backend is given to exit before it is killed.
pub const GRACE_PERIOD_MS: u64 = 2000;

/// Milliseconds from `since` to `now`; zero where `now` lies before `since`.
pub open spec fn elapsed(since: u64, now: u64) -> u64 {
    if now >= since {
        (now - since) as u64
    } else {
        0
    }
}

/// Computes [`elapsed`].
pub fn elapsed_ms(since: u64, now: u64) -> (ms: u64)
    ensures
        ms == elapsed(since, now),
{
    if now >= since {
        now - since
    } else {
        0
    }
}

} // verus!
