//! The optimistic retry policy every multi-step read-modify-write unit of
//! work is wrapped in: on a contention signal the unit is retried after a
//! fixed short delay, a bounded number of times; any other failure
//! short-circuits, since retrying cannot change its outcome.

use crate::engine::ErrorCategory;
use vstd::prelude::*;

verus! {

/// How many times a contended unit of work is retried, beyond its first
/// attempt.
pub const RETRY_LIMIT: u32 = 2;

/// How long to wait before a retry, in milliseconds.
pub const RETRY_DELAY_MILLIS: u64 = 300;

/// What the policy tells the caller to do with a failed attempt.
#[derive(Clone, Copy, Debug, PartialEq, Eq, Structural)]
pub enum RetryDecision {
    /// Wait this many milliseconds, then run the unit of work again.
    Retry { delay_millis: u64 },
    /// Return the error to the caller; no further attempt.
    GiveUp,
}

/// One run of the policy: the retries that are still allowed.
#[derive(Clone, Copy, Debug)]
pub struct RetryPolicy {
    remaining: u32,
}

impl RetryPolicy {
    pub closed spec fn spec_remaining(&self) -> u32 {
        self.remaining
    }

    /// A fresh policy with the configured retry bound.
    pub fn new() -> (r: RetryPolicy)
        ensures
            r.spec_remaining() == RETRY_LIMIT,
    {
        RetryPolicy { remaining: RETRY_LIMIT }
    }

    /// Decides one failed attempt: a retryable category with budget left is
    /// retried after the fixed delay and spends one retry; anything else
    /// gives up at once and spends nothing.
    pub fn decide(&mut self, category: ErrorCategory) -> (r: RetryDecision)
        ensures
            category == ErrorCategory::InternalRetryable && old(self).spec_remaining() > 0 ==> (r
                == (RetryDecision::Retry { delay_millis: RETRY_DELAY_MILLIS }) && final (
            self).spec_remaining() == old(self).spec_remaining() - 1),
            !(category == ErrorCategory::InternalRetryable && old(self).spec_remaining() > 0) ==> (
            r == RetryDecision::GiveUp && final (self).spec_remaining() == old(
                self,
            ).spec_remaining()),
    {
        match category {
            ErrorCategory::InternalRetryable => {
                if self.remaining > 0 {
                    self.remaining = self.remaining - 1;
                    RetryDecision::Retry { delay_millis: RETRY_DELAY_MILLIS }
                } else {
                    RetryDecision::GiveUp
                }
            },
            _ => RetryDecision::GiveUp,
        }
    }
}

/// How many attempts a run makes when attempt `i` fails with category
/// `failures[i]` (and succeeds once the failures run out), under a given
/// retry budget: each leading retryable failure with budget left buys one
/// more attempt; the first other failure — or an exhausted budget — ends
/// the run.
pub open spec fn spec_attempts(failures: Seq<ErrorCategory>, budget: nat) -> nat
    decreases failures.len(),
{
    if failures.len() == 0 {
        1
    } else if failures.first() == ErrorCategory::InternalRetryable && budget > 0 {
        1 + spec_attempts(failures.drop_first(), (budget - 1) as nat)
    } else {
        1
    }
}

/// Contention retry, bounded: however the attempts fail, the policy drives
/// at most one more attempt than its budget allows; and a non-retryable
/// first failure is never retried.
pub proof fn lemma_retry_bounded(failures: Seq<ErrorCategory>, budget: nat)
    ensures
        spec_attempts(failures, budget) <= budget + 1,
        failures.len() > 0 && failures.first() != ErrorCategory::InternalRetryable
            ==> spec_attempts(failures, budget) == 1,
    decreases failures.len(),
{
    if failures.len() > 0 && failures.first() == ErrorCategory::InternalRetryable && budget > 0 {
        lemma_retry_bounded(failures.drop_first(), (budget - 1) as nat);
    }
}

} // verus!
