//! Frame counters, the staleness bound and the wait timeout.
//!
//! A pipelined result may only be presented while it is fresh: the frame
//! counter must be exactly one past the frame that dispatched it, and the
//! wall clock must not have advanced past the staleness bound since the
//! dispatch. GPU waits are bounded by a poll timeout so a misbehaving
//! driver cannot hang the host's render thread. Both bounds are empirical
//! constants; callers pass the clock in as plain milliseconds.

use vstd::prelude::*;

verus! {

/// Maximum age, in milliseconds, of a pipelined result before it is
/// discarded instead of presented.
pub const STALENESS_BOUND_MS: u64 = 100;

/// Maximum time, in milliseconds, to poll a synchronization token before
/// proceeding anyway.
pub const WAIT_TIMEOUT_MS: u64 = 100;

/// The frame counter following `frame`, wrapping at the top of the range.
pub open spec fn next_frame(frame: u64) -> u64 {
    if frame == u64::MAX {
        0
    } else {
        (frame + 1) as u64
    }
}

/// A dispatch stamped at `dispatch_ms` is still fresh at `now_ms`.
///
/// A clock that did not advance monotonically counts as stale: freshness
/// can only be claimed when `now_ms` is at or past the dispatch time.
pub open spec fn is_fresh(dispatch_ms: u64, now_ms: u64) -> bool {
    dispatch_ms <= now_ms && now_ms - dispatch_ms < STALENESS_BOUND_MS
}

/// Executable form of [`next_frame`].
pub fn successor_frame(frame: u64) -> (r: u64)
    ensures
        r == next_frame(frame),
{
    if frame == u64::MAX {
        0
    } else {
        frame + 1
    }
}

/// Executable form of [`is_fresh`].
pub fn dispatch_is_fresh(dispatch_ms: u64, now_ms: u64) -> (r: bool)
    ensures
        r == is_fresh(dispatch_ms, now_ms),
{
    dispatch_ms <= now_ms && now_ms - dispatch_ms < STALENESS_BOUND_MS
}

/// A poll that started at `start_ms` has exceeded the wait timeout at
/// `now_ms`. Used by the driver-facing poll loop to decide when to give
/// up waiting and proceed anyway.
pub fn poll_timed_out(start_ms: u64, now_ms: u64) -> (r: bool)
    ensures
        r == (start_ms <= now_ms && now_ms - start_ms > WAIT_TIMEOUT_MS),
{
    start_ms <= now_ms && now_ms - start_ms > WAIT_TIMEOUT_MS
}

} // verus!
