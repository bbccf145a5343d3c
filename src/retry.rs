//! The bounded-retry step executor: a budget of attempts spaced by a fixed
//! interval, local to one gated step.

use vstd::prelude::*;

verus! {

/// Attempts granted to each gated step.
pub const MAX_ATTEMPTS: u32 = 10;

/// Pause between two attempts of a gated step, in milliseconds.
pub const INTERVAL_MS: u64 = 1000;

/// Attempt bookkeeping of one gated step. Every missed attempt is followed by
/// one pause of `interval_ms`; the step may try again while fewer than
/// `max_attempts` attempts have missed.
#[derive(Clone, Copy, Debug)]
pub struct RetryState {
    pub misses: u32,
    pub max_attempts: u32,
    pub interval_ms: u64,
}

/// The state after `n` further misses.
pub open spec fn after_misses(r: RetryState, n: nat) -> RetryState
    decreases n,
{
    if n == 0 {
        r
    } else {
        let p = after_misses(r, (n - 1) as nat);
        RetryState { misses: (p.misses + 1) as u32, ..p }
    }
}

impl RetryState {
    pub open spec fn wf(&self) -> bool {
        &&& 0 < self.max_attempts
        &&& self.misses <= self.max_attempts
        &&& self.max_attempts * self.interval_ms <= u64::MAX
    }

    /// Another attempt is allowed.
    pub open spec fn may_attempt(&self) -> bool {
        self.misses < self.max_attempts
    }

    /// Time spent pausing so far.
    pub open spec fn waited(&self) -> int {
        self.misses * self.interval_ms
    }

    /// A fresh budget.
    pub fn new(max_attempts: u32, interval_ms: u64) -> (r: RetryState)
        requires
            0 < max_attempts,
            max_attempts * interval_ms <= u64::MAX,
        ensures
            r.wf(),
            r.misses == 0,
            r.max_attempts == max_attempts,
            r.interval_ms == interval_ms,
    {
        RetryState { misses: 0, max_attempts, interval_ms }
    }

    /// A fresh budget of `MAX_ATTEMPTS` attempts spaced by `INTERVAL_MS`.
    pub fn standard() -> (r: RetryState)
        ensures
            r.wf(),
            r.misses == 0,
            r.max_attempts == MAX_ATTEMPTS,
            r.interval_ms == INTERVAL_MS,
    {
        RetryState::new(MAX_ATTEMPTS, INTERVAL_MS)
    }

    /// Whether another attempt is allowed.
    pub fn can_attempt(&self) -> (r: bool)
        ensures
            r == self.may_attempt(),
    {
        self.misses < self.max_attempts
    }

    /// Records a missed attempt and returns the pause to take before the
    /// budget is consulted again.
    pub fn record_miss(&mut self) -> (pause_ms: u64)
        requires
            old(self).wf(),
            old(self).may_attempt(),
        ensures
            *final(self) == after_misses(*old(self), 1),
            final(self).misses == old(self).misses + 1,
            final(self).max_attempts == old(self).max_attempts,
            final(self).interval_ms == old(self).interval_ms,
            final(self).wf(),
            pause_ms == old(self).interval_ms,
            final(self).waited() == old(self).waited() + pause_ms,
    {
        let ghost m = self.misses as int;
        let ghost i = self.interval_ms as int;
        self.misses = self.misses + 1;
        proof {
            assert(after_misses(*old(self), 0) == *old(self));
            assert(after_misses(*old(self), 1) == RetryState { misses: (old(self).misses + 1) as u32, ..*old(self) });
            assert((m + 1) * i == m * i + i) by (nonlinear_arith);
        }
        self.interval_ms
    }

    /// Time spent pausing so far, in milliseconds.
    pub fn waited_ms(&self) -> (r: u64)
        requires
            self.wf(),
        ensures
            r == self.waited(),
    {
        proof {
            assert(self.misses * self.interval_ms <= self.max_attempts * self.interval_ms) by (nonlinear_arith)
                requires self.misses <= self.max_attempts;
        }
        self.misses as u64 * self.interval_ms
    }
}

/// A step whose awaited element is found on attempt `misses + 1` has paused
/// less than that many intervals: exactly one interval per earlier attempt.
pub proof fn law_wait_below_attempts_used(r: RetryState)
    requires
        r.wf(),
        r.may_attempt(),
    ensures
        r.waited() == (r.misses + 1) * r.interval_ms - r.interval_ms,
        r.waited() <= (r.misses + 1) * r.interval_ms,
{
    assert(r.waited() == (r.misses + 1) * r.interval_ms - r.interval_ms) by (nonlinear_arith)
        requires r.waited() == r.misses * r.interval_ms;
}

/// From a fresh budget, a step whose element never appears makes exactly
/// `max_attempts` attempts: after every smaller number of misses another
/// attempt is allowed, after `max_attempts` misses none is.
pub proof fn law_exhausted_after_exactly_max(r: RetryState, n: nat)
    requires
        r.wf(),
        r.misses == 0,
        n <= r.max_attempts,
    ensures
        after_misses(r, n).misses == n,
        after_misses(r, n).max_attempts == r.max_attempts,
        after_misses(r, n).interval_ms == r.interval_ms,
        after_misses(r, n).wf(),
        after_misses(r, n).may_attempt() <==> n < r.max_attempts,
    decreases n,
{
    if n > 0 {
        law_exhausted_after_exactly_max(r, (n - 1) as nat);
        let p = after_misses(r, (n - 1) as nat);
        assert(after_misses(r, n) == RetryState { misses: (p.misses + 1) as u32, ..p });
    } else {
        assert(after_misses(r, 0) == r);
    }
}

} // verus!
