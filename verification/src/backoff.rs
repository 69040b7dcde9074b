//! Exponential backoff configuration and delay arithmetic.
//!
//! Between retryable attempts the engine waits `initial * multiplier^n`
//! milliseconds, capped at a maximum delay, and gives up after a fixed number
//! of attempts.  The multiplier is kept as a percentage so the whole policy
//! is exact integer arithmetic.

use vstd::prelude::*;

verus! {

/// The largest delay a policy may be configured with, in milliseconds.  The
/// bound keeps the delay arithmetic comfortably inside `u64`.
pub const MAX_CONFIGURABLE_DELAY_MS: u64 = 1_000_000_000_000;

/// The largest multiplier a policy may be configured with, in percent.
pub const MAX_MULTIPLIER_PERCENT: u64 = 10_000;

/// Immutable retry-budget configuration: one instance per retry loop
/// invocation.
#[derive(Clone, Copy, Debug, PartialEq, Eq, Structural)]
pub struct BackoffPolicy {
    /// The delay before the second attempt, in milliseconds.
    pub initial_delay_ms: u64,
    /// The factor by which the delay grows after each retryable failure,
    /// in percent; 150 means each delay is one and a half times the last.
    pub multiplier_percent: u64,
    /// The ceiling no delay ever exceeds, in milliseconds.
    pub max_delay_ms: u64,
    /// The total number of attempts allowed before the budget is exhausted.
    pub max_attempts: u32,
}

impl BackoffPolicy {
    /// A policy is well formed when it allows at least one attempt, never
    /// shrinks the delay, and stays within the configurable bounds.
    pub open spec fn wf(self) -> bool {
        &&& self.max_attempts >= 1
        &&& 100 <= self.multiplier_percent <= MAX_MULTIPLIER_PERCENT
        &&& self.max_delay_ms <= MAX_CONFIGURABLE_DELAY_MS
    }

    /// The delay that follows a delay of `d` milliseconds:
    /// `min(max_delay, d * multiplier)`.
    pub open spec fn spec_next_delay(self, d: int) -> int {
        let grown = d * self.multiplier_percent / 100;
        if grown > self.max_delay_ms { self.max_delay_ms as int } else { grown }
    }

    /// The delay after `n` retryable failures:
    /// `min(max_delay, initial_delay * multiplier^n)`.
    pub open spec fn spec_delay(self, n: nat) -> int
        decreases n,
    {
        if n == 0 {
            if self.initial_delay_ms > self.max_delay_ms {
                self.max_delay_ms as int
            } else {
                self.initial_delay_ms as int
            }
        } else {
            self.spec_next_delay(self.spec_delay((n - 1) as nat))
        }
    }

    /// The delay before the second attempt.
    pub fn first_delay(&self) -> (r: u64)
        ensures
            r == self.spec_delay(0),
    {
        if self.initial_delay_ms > self.max_delay_ms {
            self.max_delay_ms
        } else {
            self.initial_delay_ms
        }
    }

    /// Grows a delay by the multiplier, capped at the maximum delay.
    pub fn next_delay(&self, cur: u64) -> (r: u64)
        requires
            self.wf(),
            cur <= self.max_delay_ms,
        ensures
            r == self.spec_next_delay(cur as int),
            r <= self.max_delay_ms,
    {
        proof {
            assert(cur as int * self.multiplier_percent as int
                <= MAX_CONFIGURABLE_DELAY_MS as int * MAX_MULTIPLIER_PERCENT as int)
                by (nonlinear_arith)
                requires
                    0 <= cur as int <= MAX_CONFIGURABLE_DELAY_MS as int,
                    0 <= self.multiplier_percent as int <= MAX_MULTIPLIER_PERCENT as int,
            ;
        }
        let grown: u64 = (cur * self.multiplier_percent) / 100;
        if grown > self.max_delay_ms {
            self.max_delay_ms
        } else {
            grown
        }
    }
}

impl Default for BackoffPolicy {
    /// The conventional exponential backoff: half a second to start, growing
    /// by half each time, capped at one minute, eight attempts in all.
    fn default() -> (p: Self)
        ensures
            p.wf(),
            p == (BackoffPolicy {
                initial_delay_ms: 500,
                multiplier_percent: 150,
                max_delay_ms: 60_000,
                max_attempts: 8,
            }),
    {
        BackoffPolicy {
            initial_delay_ms: 500,
            multiplier_percent: 150,
            max_delay_ms: 60_000,
            max_attempts: 8,
        }
    }
}

/// Every delay in a well-formed policy's schedule lies between zero and the
/// configured maximum.
pub proof fn lemma_delay_bounds(p: BackoffPolicy, n: nat)
    requires
        p.wf(),
    ensures
        0 <= p.spec_delay(n) <= p.max_delay_ms,
    decreases n,
{
    if n == 0 {
    } else {
        lemma_delay_bounds(p, (n - 1) as nat);
        let d = p.spec_delay((n - 1) as nat);
        assert(d * p.multiplier_percent / 100 >= 0) by (nonlinear_arith)
            requires
                d >= 0,
                p.multiplier_percent >= 100,
        ;
    }
}

/// Backoff monotonicity: for a retry sequence that never succeeds, each
/// delay in a well-formed policy's schedule is at least the one before it,
/// up to the configured maximum.
pub proof fn lemma_delay_monotone(p: BackoffPolicy, n: nat)
    requires
        p.wf(),
    ensures
        p.spec_delay(n) <= p.spec_delay(n + 1),
        p.spec_delay(n + 1) <= p.max_delay_ms,
{
    lemma_delay_bounds(p, n);
    lemma_delay_bounds(p, n + 1);
    let d = p.spec_delay(n);
    assert(d * p.multiplier_percent / 100 >= d) by (nonlinear_arith)
        requires
            d >= 0,
            p.multiplier_percent >= 100,
    ;
}

} // verus!
