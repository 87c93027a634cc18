//! Reconnect bookkeeping for the outbound duplex connection.
//!
//! The transport waits `RECONNECT_WAIT_UNIT_MS × consecutiveFailures` before
//! each new handshake. The failure count compounds only while failures stay
//! inside a trailing window; a quieter stretch resets it to one. Past the
//! configured maximum the transport gives up for good, which the supervisor
//! treats as fatal.

use vstd::prelude::*;

use crate::constants::MAX_WS_RECONNECT_COUNT;

verus! {

/// The trailing window inside which consecutive failures compound.
pub const RECONNECT_WINDOW_MS: i64 = 300000;

/// The wait grows by this much with each consecutive failure.
pub const RECONNECT_WAIT_UNIT_MS: u64 = 5000;

/// What the reconnect loop remembers between failures: the count of
/// consecutive failures and when the last one happened, in milliseconds
/// since the epoch.
#[derive(Clone, Copy, Debug, PartialEq, Eq, Structural)]
pub struct ReconnectState {
    pub err_cnt: u32,
    pub last_err_ms: i64,
}

/// The failure count after one more failure at `now_ms`: one more than
/// before when the previous failure lies inside the window, else one.
pub open spec fn spec_next_err_cnt(prev: ReconnectState, now_ms: i64) -> int {
    if now_ms - prev.last_err_ms < RECONNECT_WINDOW_MS {
        prev.err_cnt + 1
    } else {
        1
    }
}

/// The state after one more failure at `now_ms`.
pub open spec fn spec_reconnect_after(prev: ReconnectState, now_ms: i64) -> ReconnectState {
    ReconnectState { err_cnt: spec_next_err_cnt(prev, now_ms) as u32, last_err_ms: now_ms }
}

/// Whether a state's failure count has exhausted the budget.
pub open spec fn spec_gave_up(st: ReconnectState) -> bool {
    st.err_cnt > MAX_WS_RECONNECT_COUNT
}

/// The wait before the next handshake from a state that has not given up.
pub open spec fn spec_reconnect_wait_ms(st: ReconnectState) -> int {
    RECONNECT_WAIT_UNIT_MS * st.err_cnt
}

impl ReconnectState {
    /// The bookkeeping before the first failure: no failures counted, the
    /// reference time set at start-up.
    pub fn initial(start_ms: i64) -> (r: ReconnectState)
        ensures
            r.err_cnt == 0,
            r.last_err_ms == start_ms,
    {
        ReconnectState { err_cnt: 0, last_err_ms: start_ms }
    }

    /// Records one connection failure at `now_ms` and decides what follows:
    /// `Some(wait)` to retry after that many milliseconds, `None` to give up
    /// for good. Timestamps do not go backwards and stay non-negative.
    pub fn step(&self, now_ms: i64) -> (r: (ReconnectState, Option<u64>))
        requires
            0 <= self.last_err_ms <= now_ms,
            self.err_cnt < u32::MAX,
        ensures
            r.0 == spec_reconnect_after(*self, now_ms),
            spec_gave_up(r.0) ==> r.1 is None,
            !spec_gave_up(r.0) ==> r.1 == Some(spec_reconnect_wait_ms(r.0) as u64),
    {
        let cnt: u32 = if now_ms - self.last_err_ms < RECONNECT_WINDOW_MS {
            self.err_cnt + 1
        } else {
            1
        };
        let next = ReconnectState { err_cnt: cnt, last_err_ms: now_ms };
        if cnt > MAX_WS_RECONNECT_COUNT {
            (next, None)
        } else {
            (next, Some(RECONNECT_WAIT_UNIT_MS * (cnt as u64)))
        }
    }
}

/// Failures compound inside the window: after a failure following a quiet
/// stretch and two more failures each within the window of the one before,
/// the third wait is three times the unit.
pub proof fn lemma_backoff_compounds(s0: ReconnectState, t0: i64, t1: i64, t2: i64)
    requires
        t0 - s0.last_err_ms >= RECONNECT_WINDOW_MS,
        t1 - t0 < RECONNECT_WINDOW_MS,
        t2 - t1 < RECONNECT_WINDOW_MS,
        t0 <= t1 <= t2,
    ensures
        ({
            let s3 = spec_reconnect_after(
                spec_reconnect_after(spec_reconnect_after(s0, t0), t1),
                t2,
            );
            s3.err_cnt == 3 && spec_reconnect_wait_ms(s3) == 3 * RECONNECT_WAIT_UNIT_MS
        }),
{
}

/// A failure later than the window after the previous one resets the
/// multiplier to one, whatever it had grown to.
pub proof fn lemma_backoff_resets(s: ReconnectState, t: i64)
    requires
        t - s.last_err_ms >= RECONNECT_WINDOW_MS,
    ensures
        spec_reconnect_after(s, t).err_cnt == 1,
        spec_reconnect_wait_ms(spec_reconnect_after(s, t)) == RECONNECT_WAIT_UNIT_MS,
{
}

} // verus!
