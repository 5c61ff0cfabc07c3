//! The retry policy around the completion backend: a fallible operation
//! is invoked up to `max_retries + 1` times, with capped exponential
//! backoff between attempts, and the final failure is propagated
//! verbatim after exhaustion.

use vstd::prelude::*;
use vstd::arithmetic::power2::{pow2, lemma_pow2_strictly_increases};

verus! {

/// The delay slept after a failure, when `prev_failures` failures came
/// before it: one second doubled per earlier failure, capped at thirty
/// seconds.
pub open spec fn retry_backoff_ms(prev_failures: nat) -> nat {
    if 1000 * pow2(prev_failures) > 30000 {
        30000
    } else {
        1000 * pow2(prev_failures)
    }
}

/// The delay slept by a connection-oriented adapter after
/// `consecutive_errors` consecutive errors: a tenth of a second doubled
/// per error, capped at thirty seconds.
pub open spec fn io_backoff_ms(consecutive_errors: nat) -> nat {
    if 100 * pow2(consecutive_errors) > 30000 {
        30000
    } else {
        100 * pow2(consecutive_errors)
    }
}

/// A delay of `base` milliseconds doubled `k` times, capped at thirty
/// seconds.
pub open spec fn capped_doubling_ms(base: nat, k: nat) -> nat {
    if base * pow2(k) > 30000 {
        30000
    } else {
        base * pow2(k)
    }
}

fn capped_doubling_delay(base: u64, k: u64) -> (d: u64)
    requires
        1 <= base <= 30000,
    ensures
        d as nat == capped_doubling_ms(base as nat, k as nat),
{
    let mut d: u64 = base;
    let mut i: u64 = 0;
    proof {
        vstd::arithmetic::power2::lemma2_to64();
    }
    while i < k && d < 30000
        invariant
            1 <= base <= 30000,
            i <= k,
            d as nat == base as nat * pow2(i as nat),
            d < 60000,
        decreases k - i,
    {
        d = 2 * d;
        i = i + 1;
        proof {
            vstd::arithmetic::power2::lemma_pow2_unfold(i as nat);
            assert(base as nat * pow2(i as nat) == 2 * (base as nat * pow2(
                (i - 1) as nat,
            ))) by (nonlinear_arith)
                requires
                    pow2(i as nat) == 2 * pow2((i - 1) as nat),
            ;
        }
    }
    if d > 30000 {
        proof {
            if i < k {
                lemma_pow2_strictly_increases(i as nat, k as nat);
                assert(base as nat * pow2(i as nat) <= base as nat * pow2(k as nat)) by (
                nonlinear_arith)
                    requires
                        base >= 1,
                        pow2(i as nat) <= pow2(k as nat),
                ;
            }
        }
        30000
    } else {
        proof {
            if i < k {
                lemma_pow2_strictly_increases(i as nat, k as nat);
                assert(base as nat * pow2(i as nat) <= base as nat * pow2(k as nat)) by (
                nonlinear_arith)
                    requires
                        base >= 1,
                        pow2(i as nat) <= pow2(k as nat),
                ;
                assert(d >= 30000);
            }
        }
        d
    }
}

/// The delay before the next completion attempt, given how many failures
/// came before the latest one.
pub fn backoff_delay_ms(prev_failures: u64) -> (d: u64)
    ensures
        d as nat == retry_backoff_ms(prev_failures as nat),
{
    capped_doubling_delay(1000, prev_failures)
}

/// The delay before an adapter reconnects or re-polls, given how many
/// consecutive errors it has seen.
pub fn adapter_backoff_ms(consecutive_errors: u64) -> (d: u64)
    ensures
        d as nat == io_backoff_ms(consecutive_errors as nat),
{
    capped_doubling_delay(100, consecutive_errors)
}

/// What the retry wrapper does after a failure: wait and try again, or
/// give up and propagate the failure.
#[derive(Debug, PartialEq, Eq, Structural)]
pub enum RetryDecision {
    RetryAfterMs(u64),
    GiveUp,
}

/// The state of one retried operation: how many failures it has seen and
/// how many retries it is allowed.
pub struct RetryMachine {
    pub failures: usize,
    pub max_retries: usize,
}

impl RetryMachine {
    /// A fresh machine that allows `max_retries` retries after the first
    /// attempt.
    pub fn new(max_retries: usize) -> (m: RetryMachine)
        ensures
            m.failures == 0,
            m.max_retries == max_retries,
    {
        RetryMachine { failures: 0, max_retries }
    }

    /// Records one failure. While the budget is not exhausted the answer
    /// is to retry after the capped exponential delay; once more
    /// failures have happened than retries are allowed, the answer is to
    /// give up.
    pub fn on_failure(&mut self) -> (d: RetryDecision)
        requires
            old(self).failures < usize::MAX,
        ensures
            final(self).failures == old(self).failures + 1,
            final(self).max_retries == old(self).max_retries,
            final(self).failures > final(self).max_retries ==> d == RetryDecision::GiveUp,
            final(self).failures <= final(self).max_retries ==> d == RetryDecision::RetryAfterMs(
                retry_backoff_ms(old(self).failures as nat) as u64),
    {
        self.failures = self.failures + 1;
        if self.failures > self.max_retries {
            RetryDecision::GiveUp
        } else {
            RetryDecision::RetryAfterMs(backoff_delay_ms(self.failures as u64 - 1))
        }
    }
}

/// Whether a retried operation whose attempts come out as `outcomes`
/// (true is success) ends in success when `budget` retries are allowed
/// after the first attempt.
pub open spec fn retry_outcome(outcomes: Seq<bool>, budget: nat) -> bool
    decreases budget,
{
    if outcomes.len() == 0 {
        false
    } else if outcomes[0] {
        true
    } else if budget == 0 {
        false
    } else {
        retry_outcome(outcomes.drop_first(), (budget - 1) as nat)
    }
}

/// How many times a retried operation whose attempts come out as
/// `outcomes` is invoked when `budget` retries are allowed after the
/// first attempt.
pub open spec fn retry_invocations(outcomes: Seq<bool>, budget: nat) -> nat
    decreases budget,
{
    if outcomes.len() == 0 {
        1
    } else if outcomes[0] {
        1
    } else if budget == 0 {
        1
    } else {
        1 + retry_invocations(outcomes.drop_first(), (budget - 1) as nat)
    }
}

/// An operation that fails exactly `k` times and then succeeds, with `k`
/// within the retry budget, is invoked exactly `k + 1` times and the
/// wrapper reports success.
pub proof fn lemma_retry_counts_success(outcomes: Seq<bool>, k: int, budget: nat)
    requires
        0 <= k <= budget,
        k < outcomes.len(),
        forall|j: int| 0 <= j < k ==> !outcomes[j],
        outcomes[k],
    ensures
        retry_invocations(outcomes, budget) == k + 1,
        retry_outcome(outcomes, budget),
    decreases k,
{
    if k > 0 {
        lemma_retry_counts_success(outcomes.drop_first(), k - 1, (budget - 1) as nat);
    }
}

/// An operation that never succeeds is invoked exactly `budget + 1`
/// times and the wrapper reports the failure.
pub proof fn lemma_retry_counts_exhaustion(outcomes: Seq<bool>, budget: nat)
    requires
        budget < outcomes.len(),
        forall|j: int| 0 <= j <= budget ==> !outcomes[j],
    ensures
        retry_invocations(outcomes, budget) == budget + 1,
        !retry_outcome(outcomes, budget),
    decreases budget,
{
    if budget > 0 {
        lemma_retry_counts_exhaustion(outcomes.drop_first(), (budget - 1) as nat);
    }
}

/// Runs the retry loop against a script of attempt outcomes, true
/// standing for a successful call. Returns how many times the operation
/// was invoked and whether the last invocation succeeded.
pub fn run_retry_schedule(outcomes: &Vec<bool>, max_retries: usize) -> (r: (usize, bool))
    requires
        max_retries < outcomes.len(),
    ensures
        r.0 == retry_invocations(outcomes@, max_retries as nat),
        r.1 == retry_outcome(outcomes@, max_retries as nat),
        r.1 ==> outcomes@[r.0 - 1],
{
    let mut machine = RetryMachine::new(max_retries);
    let mut i: usize = 0;
    loop
        invariant
            machine.failures == i,
            machine.max_retries == max_retries,
            i <= max_retries < outcomes.len(),
            forall|j: int| 0 <= j < i ==> !outcomes@[j],
        decreases outcomes.len() - i,
    {
        let ok = outcomes[i];
        if ok {
            proof {
                lemma_retry_counts_success(outcomes@, i as int, max_retries as nat);
            }
            return (i + 1, true);
        }
        match machine.on_failure() {
            RetryDecision::GiveUp => {
                proof {
                    lemma_retry_counts_exhaustion(outcomes@, max_retries as nat);
                }
                return (i + 1, false);
            },
            RetryDecision::RetryAfterMs(_delay) => {
                i = i + 1;
            },
        }
    }
}

} // verus!
