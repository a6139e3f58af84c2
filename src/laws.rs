//! What holds of every run that a policy drives.
use vstd::prelude::*;
use vstd::arithmetic::power::pow;
use crate::backoff::MAX_DELAY;
use crate::policy::Retry;
use crate::schedule::{Decision, RetryState};

verus! {

/// Attempt `i` succeeds under `outcomes`: `outcomes[i]` tells whether
/// attempt `i` succeeds, and every attempt past its end fails.
pub open spec fn succeeds(outcomes: Seq<bool>, i: int) -> bool {
    0 <= i < outcomes.len() && outcomes[i]
}

impl Retry {
    /// The number of times a run that is in state `s` goes on to invoke the
    /// operation, when the attempts succeed as `outcomes` says: it stops at
    /// the first success, or after the failure that the run gives up on.
    pub open spec fn invocations(self, s: RetryState, outcomes: Seq<bool>) -> nat
        decreases self.attempts - s.attempt,
    {
        if succeeds(outcomes, s.attempt as int) || self.is_last(s) {
            1
        } else {
            1 + self.invocations(self.successor(s), outcomes)
        }
    }
}

/// Every scheduled delay is a delay in nanoseconds that a `u64` holds.
pub proof fn lemma_scheduled_in_range(p: Retry, i: nat)
    requires
        p.wf(),
    ensures
        0 <= p.scheduled_delay(i) <= MAX_DELAY,
    decreases i,
{
    if i > 0 {
        lemma_scheduled_in_range(p, (i - 1) as nat);
        let d = p.scheduled_delay((i - 1) as nat);
        let n = p.factor_numer as int;
        let m = p.factor_denom as int;
        assert(d * n / m >= 0) by (nonlinear_arith)
            requires
                d >= 0,
                n >= 0,
                m >= 1,
        ;
    }
}

/// A run that is not over moves from the state of attempt `i` to the
/// state of attempt `i + 1`.
pub proof fn lemma_successor_reached(p: Retry, s: RetryState, i: nat)
    requires
        p.wf(),
        p.reached(s, i),
        !p.is_last(s),
    ensures
        p.reached(p.successor(s), i + 1),
{
    lemma_scheduled_in_range(p, i);
    lemma_scheduled_in_range(p, i + 1);
}

proof fn lemma_all_fail_from(p: Retry, s: RetryState, outcomes: Seq<bool>)
    requires
        p.wf(),
        s.attempt < p.attempts,
        forall|i: int| 0 <= i < outcomes.len() ==> !outcomes[i],
    ensures
        p.invocations(s, outcomes) == p.attempts - s.attempt,
    decreases p.attempts - s.attempt,
{
    if !p.is_last(s) {
        lemma_all_fail_from(p, p.successor(s), outcomes);
    }
}

/// A run whose every attempt fails invokes the operation exactly as many
/// times as the policy allows attempts, and gives up after the last.
pub proof fn lemma_attempts_bound(p: Retry, s: RetryState, outcomes: Seq<bool>)
    requires
        p.wf(),
        p.reached(s, 0),
        forall|i: int| 0 <= i < outcomes.len() ==> !outcomes[i],
    ensures
        p.invocations(s, outcomes) == p.attempts,
{
    lemma_all_fail_from(p, s, outcomes);
}

proof fn lemma_success_from(p: Retry, s: RetryState, outcomes: Seq<bool>, k: nat)
    requires
        p.wf(),
        s.attempt < k <= p.attempts,
        succeeds(outcomes, k - 1),
        forall|i: int| 0 <= i < k - 1 ==> !succeeds(outcomes, i),
    ensures
        p.invocations(s, outcomes) == k - s.attempt,
    decreases p.attempts - s.attempt,
{
    if !succeeds(outcomes, s.attempt as int) && !p.is_last(s) {
        lemma_success_from(p, p.successor(s), outcomes, k);
    }
}

/// A run whose first successful attempt is attempt number `k`, counted
/// from one, with `k` within the allowed attempts, invokes the operation
/// exactly `k` times.
pub proof fn lemma_early_success(p: Retry, s: RetryState, outcomes: Seq<bool>, k: nat)
    requires
        p.wf(),
        p.reached(s, 0),
        1 <= k <= p.attempts,
        succeeds(outcomes, k - 1),
        forall|i: int| 0 <= i < k - 1 ==> !succeeds(outcomes, i),
    ensures
        p.invocations(s, outcomes) == k,
{
    lemma_success_from(p, s, outcomes, k);
}

/// With no base delay every scheduled delay is zero.
pub proof fn lemma_zero_base_schedule(p: Retry, i: nat)
    requires
        p.wf(),
        p.base_delay == 0,
    ensures
        p.scheduled_delay(i) == 0,
    decreases i,
{
    if i > 0 {
        lemma_zero_base_schedule(p, (i - 1) as nat);
        assert(0 * (p.factor_numer as int) == 0);
    }
}

/// With no base delay and no jitter, a run never waits between attempts.
pub proof fn lemma_zero_delay_default(p: Retry, s: RetryState, i: nat, draw: u64)
    requires
        p.wf(),
        p.base_delay == 0,
        !p.enable_jitter,
        p.reached(s, i),
    ensures
        p.decision(s, draw) matches Decision::Wait { sleep, next } ==> sleep == 0 && p.reached(
            next,
            i + 1,
        ),
{
    lemma_zero_base_schedule(p, i);
    if !p.is_last(s) {
        lemma_successor_reached(p, s, i);
    }
}

/// With a whole growth factor `n` the delay after attempt `i` is
/// `base_delay * n^i`, as long as that fits in a `u64`.
pub proof fn lemma_exponential_schedule(p: Retry, i: nat)
    requires
        p.wf(),
        p.factor_denom == 1,
        p.base_delay * pow(p.factor_numer as int, i) <= MAX_DELAY,
    ensures
        p.scheduled_delay(i) == p.base_delay * pow(p.factor_numer as int, i),
    decreases i,
{
    let b = p.base_delay as int;
    let n = p.factor_numer as int;
    if i > 0 {
        let j = (i - 1) as nat;
        reveal(pow);
        assert(pow(n, i) == n * pow(n, j));
        if n == 0 {
            assert(b * pow(n, i) == 0) by (nonlinear_arith)
                requires
                    pow(n, i) == n * pow(n, j),
                    n == 0,
            ;
            lemma_scheduled_in_range(p, j);
            assert(p.scheduled_delay(j) * n == 0) by (nonlinear_arith)
                requires
                    n == 0,
            ;
        } else {
            vstd::arithmetic::power::lemma_pow_positive(n, j);
            assert(b * pow(n, j) <= b * pow(n, i)) by (nonlinear_arith)
                requires
                    b >= 0,
                    n >= 1,
                    pow(n, j) > 0,
                    pow(n, i) == n * pow(n, j),
            ;
            lemma_exponential_schedule(p, j);
            assert(b * pow(n, j) * n == b * pow(n, i)) by (nonlinear_arith)
                requires
                    pow(n, i) == n * pow(n, j),
            ;
        }
    } else {
        reveal(pow);
    }
}

} // verus!
