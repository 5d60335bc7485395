use vstd::prelude::*;

use crate::error::LayoutError;

verus! {

/// How the background refresh paths treat failed queries: a bounded number of
/// consecutive failures, with a delay that doubles after each one up to a cap.
#[derive(Clone, Copy, Debug)]
pub struct RetryPolicy {
    /// The regular time between two refreshes.
    pub interval_ms: u64,
    /// Consecutive failures after which the refresh loop stops.
    pub max_failures: u32,
    /// The delay after the first failure.
    pub base_delay_ms: u64,
    /// The longest delay.
    pub max_delay_ms: u64,
}

/// What the refresh loop does next.
#[derive(Clone, Copy, Debug, PartialEq, Eq, Structural)]
pub enum PollStep {
    /// Wait this long, then query again.
    Wait { delay_ms: u64 },
    /// Give up: the failure is permanent or retries are exhausted.
    Stop,
}

/// `2^k`.
pub open spec fn doubling(k: nat) -> nat
    decreases k,
{
    if k == 0 {
        1
    } else {
        2 * doubling((k - 1) as nat)
    }
}

/// The delay before retry number `k + 1`: `base * 2^k`, capped at `cap`.
pub open spec fn backoff_delay(base: nat, cap: nat, k: nat) -> nat {
    if base * doubling(k) <= cap {
        base * doubling(k)
    } else {
        cap
    }
}

/// `policy.base_delay_ms * 2^k`, capped at `policy.max_delay_ms`.
pub fn retry_delay(policy: &RetryPolicy, k: u32) -> (d: u64)
    ensures
        d == backoff_delay(policy.base_delay_ms as nat, policy.max_delay_ms as nat, k as nat),
{
    let base = policy.base_delay_ms;
    let cap = policy.max_delay_ms;
    let mut d: u64 = if base <= cap {
        base
    } else {
        cap
    };
    let mut i: u32 = 0;
    assert(doubling(0) == 1);
    assert(base * doubling(0) == base);
    while i < k
        invariant
            i <= k,
            base == policy.base_delay_ms,
            cap == policy.max_delay_ms,
            d == backoff_delay(base as nat, cap as nat, i as nat),
        decreases k - i,
    {
        proof {
            let p = doubling(i as nat);
            assert(doubling((i + 1) as nat) == 2 * p);
            assert(base * doubling((i + 1) as nat) == 2 * (base * p)) by (nonlinear_arith)
                requires
                    doubling((i + 1) as nat) == 2 * p,
            ;
        }
        if d >= cap - d {
            d = cap;
        } else {
            d = d + d;
        }
        i = i + 1;
    }
    d
}

/// The decision after one refresh, given the failures that came right before
/// it. A success resets the count and waits the regular interval. A spawn
/// failure is permanent and stops the loop. Any other failure is counted; the
/// loop stops once `max_failures` are reached in a row, and otherwise waits
/// the backoff delay for that many failures.
pub fn next_poll(policy: &RetryPolicy, failures: u32, outcome: Result<bool, LayoutError>) -> (r: (
    u32,
    PollStep,
))
    ensures
        outcome is Ok ==> r == (0u32, PollStep::Wait { delay_ms: policy.interval_ms }),
        outcome == Err::<bool, LayoutError>(LayoutError::Spawn) ==> r == (
        failures,
        PollStep::Stop,
        ),
        outcome matches Err(e) && e != LayoutError::Spawn ==> {
            let f = if failures < u32::MAX {
                failures + 1
            } else {
                failures as int
            };
            &&& r.0 == f
            &&& f >= policy.max_failures ==> r.1 == PollStep::Stop
            &&& f < policy.max_failures ==> r.1 == PollStep::Wait {
                delay_ms: backoff_delay(
                    policy.base_delay_ms as nat,
                    policy.max_delay_ms as nat,
                    (f - 1) as nat,
                ) as u64,
            }
        },
{
    match outcome {
        Ok(_) => (0, PollStep::Wait { delay_ms: policy.interval_ms }),
        Err(LayoutError::Spawn) => (failures, PollStep::Stop),
        Err(_) => {
            let f: u32 = if failures < u32::MAX {
                failures + 1
            } else {
                failures
            };
            if f >= policy.max_failures {
                (f, PollStep::Stop)
            } else {
                (f, PollStep::Wait { delay_ms: retry_delay(policy, f - 1) })
            }
        },
    }
}

} // verus!
