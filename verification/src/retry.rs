//! Trying an operation again after it failed, a bounded number of times.
//!
//! The budget decides and does nothing else. Its caller runs the operation,
//! reports each failure, and waits or gives up as the answer says.

use vstd::prelude::*;

verus! {

/// The pause before an operation is tried again.
pub const RETRY_PAUSE_MS: u64 = 1_000;

/// What to do after a failure.
#[derive(Clone, Copy, Debug, PartialEq, Eq, Structural)]
pub enum RetryDecision {
    /// Wait for `wait_ms`, then run the operation again.
    RetryAfter { wait_ms: u64 },
    /// Give up and hand the last failure to the caller.
    GiveUp,
}

/// How many times an operation has been tried again, and how many times it
/// may be.
#[derive(Clone, Copy, Debug, PartialEq, Eq, Structural)]
pub struct RetryBudget {
    /// Retries made so far.
    pub attempts: usize,
    /// The most retries allowed.
    pub max_retries: usize,
}

impl RetryBudget {
    /// What a failure does to the budget and what follows from it: while
    /// retries are left one is spent and the operation runs again after the
    /// pause; once they are spent the budget stays as it is and the caller
    /// gives up.
    pub open spec fn after_failure(self) -> (RetryBudget, RetryDecision) {
        if self.attempts < self.max_retries {
            (
                RetryBudget { attempts: (self.attempts + 1) as usize, ..self },
                RetryDecision::RetryAfter { wait_ms: RETRY_PAUSE_MS },
            )
        } else {
            (self, RetryDecision::GiveUp)
        }
    }

    /// The budget after `failures` failures in a row.
    pub open spec fn after_failures(self, failures: nat) -> RetryBudget
        decreases failures,
    {
        if failures == 0 {
            self
        } else {
            self.after_failure().0.after_failures((failures - 1) as nat)
        }
    }

    /// A budget of `max_retries` retries, none of them spent.
    pub fn new(max_retries: usize) -> (budget: Self)
        ensures
            budget == (RetryBudget { attempts: 0, max_retries }),
    {
        RetryBudget { attempts: 0, max_retries }
    }

    /// Takes in that the operation failed and says what to do.
    pub fn on_failure(&mut self) -> (decision: RetryDecision)
        ensures
            (*final(self), decision) == old(self).after_failure(),
    {
        if self.attempts < self.max_retries {
            self.attempts += 1;
            RetryDecision::RetryAfter { wait_ms: RETRY_PAUSE_MS }
        } else {
            RetryDecision::GiveUp
        }
    }
}

/// An operation that keeps failing runs once and is then tried again
/// exactly `max_retries` times: each of the first `max_retries` failures
/// spends a retry, and the failure after them ends it.
pub proof fn lemma_retries_are_bounded(max_retries: usize, failures: nat)
    requires
        failures <= max_retries,
    ensures
        ({
            let fresh = RetryBudget { attempts: 0, max_retries };
            let later = fresh.after_failures(failures);
            &&& later.attempts == failures
            &&& later.max_retries == max_retries
            &&& failures < max_retries ==> later.after_failure().1 == (RetryDecision::RetryAfter {
                wait_ms: RETRY_PAUSE_MS,
            })
            &&& failures == max_retries ==> later.after_failure() == (later, RetryDecision::GiveUp)
        }),
{
    lemma_failures_spend_retries(RetryBudget { attempts: 0, max_retries }, failures);
}

/// Failures within what is left of a budget each spend one retry.
proof fn lemma_failures_spend_retries(budget: RetryBudget, failures: nat)
    requires
        budget.attempts + failures <= budget.max_retries,
    ensures
        budget.after_failures(failures).attempts == budget.attempts + failures,
        budget.after_failures(failures).max_retries == budget.max_retries,
    decreases failures,
{
    if failures > 0 {
        lemma_failures_spend_retries(budget.after_failure().0, (failures - 1) as nat);
    }
}

} // verus!
