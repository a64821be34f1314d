//! Bounded retry of a single transfer: a fixed attempt budget, no delay between
//! attempts, the same request every time, and an end at the first success.

use vstd::prelude::*;

verus! {

/// The attempt budget that is used where nothing else is asked for.
pub const DEFAULT_MAX_ATTEMPTS: u32 = 5;

/// How often a transfer may be attempted for one wallet. The budget is never
/// zero.
#[derive(Clone, Copy, Debug, PartialEq, Eq)]
pub struct RetryPolicy {
    max_attempts: u32,
}

impl RetryPolicy {
    #[verifier::type_invariant]
    spec fn budget_is_positive(self) -> bool {
        self.max_attempts >= 1
    }

    /// The attempt budget of this policy.
    pub closed spec fn budget(self) -> u32 {
        self.max_attempts
    }

    /// A policy with the given budget. A budget of zero is refused.
    pub fn new(max_attempts: u32) -> (policy: Option<RetryPolicy>)
        ensures
            policy is None <==> max_attempts == 0,
            policy matches Some(p) ==> p.budget() == max_attempts,
    {
        if max_attempts == 0 {
            None
        } else {
            Some(RetryPolicy { max_attempts })
        }
    }

    /// The attempt budget of this policy, which is at least one.
    pub fn max_attempts(&self) -> (max: u32)
        ensures
            max == self.budget(),
            max >= 1,
    {
        proof {
            use_type_invariant(self);
        }
        self.max_attempts
    }
}

impl Default for RetryPolicy {
    /// The policy with the default budget.
    fn default() -> (policy: RetryPolicy)
        ensures
            policy.budget() == DEFAULT_MAX_ATTEMPTS,
    {
        RetryPolicy { max_attempts: DEFAULT_MAX_ATTEMPTS }
    }
}

/// Where the transfer for one wallet stands.
#[derive(Clone, Copy, Debug, PartialEq, Eq, Structural)]
pub enum RetryState {
    /// Nothing has been attempted yet.
    Pending,
    /// The attempt with this number, counted from one, is to be made or is
    /// under way.
    Attempting { attempt: u32 },
    /// An attempt succeeded; `attempts` were made in all.
    Succeeded { attempts: u32 },
    /// Every attempt of the budget failed; `attempts` were made in all.
    Exhausted { attempts: u32 },
}

impl RetryState {
    /// The state after the first attempt has been asked for.
    pub open spec fn begun(self) -> RetryState {
        match self {
            RetryState::Pending => RetryState::Attempting { attempt: 1 },
            _ => self,
        }
    }

    /// The state after the attempt under way has come back. A success ends
    /// the work; a failure ends it when the budget is used up and asks for the
    /// next attempt otherwise. In any other state nothing is under way, and
    /// the state stays as it is.
    pub open spec fn observed(self, budget: u32, success: bool) -> RetryState {
        match self {
            RetryState::Attempting { attempt } => if success {
                RetryState::Succeeded { attempts: attempt }
            } else if attempt >= budget {
                RetryState::Exhausted { attempts: attempt }
            } else {
                RetryState::Attempting { attempt: (attempt + 1) as u32 }
            },
            _ => self,
        }
    }

    /// An attempt is to be made.
    pub open spec fn is_attempting(self) -> bool {
        self is Attempting
    }

    /// The work has ended, one way or the other.
    pub open spec fn is_terminal(self) -> bool {
        self is Succeeded || self is Exhausted
    }

    /// Asks for the first attempt.
    pub fn begin(self) -> (next: RetryState)
        ensures
            next == self.begun(),
    {
        match self {
            RetryState::Pending => RetryState::Attempting { attempt: 1 },
            _ => self,
        }
    }

    /// Takes note of how the attempt under way came back.
    pub fn observe(self, policy: &RetryPolicy, success: bool) -> (next: RetryState)
        ensures
            next == self.observed(policy.budget(), success),
    {
        match self {
            RetryState::Attempting { attempt } => {
                if success {
                    RetryState::Succeeded { attempts: attempt }
                } else if attempt >= policy.max_attempts() {
                    RetryState::Exhausted { attempts: attempt }
                } else {
                    RetryState::Attempting { attempt: attempt + 1 }
                }
            },
            _ => self,
        }
    }

    /// Tells whether an attempt is to be made.
    pub fn attempting(&self) -> (yes: bool)
        ensures
            yes == self.is_attempting(),
    {
        match self {
            RetryState::Attempting { .. } => true,
            _ => false,
        }
    }

    /// Tells whether the work has ended.
    pub fn terminal(&self) -> (yes: bool)
        ensures
            yes == self.is_terminal(),
    {
        match self {
            RetryState::Succeeded { .. } => true,
            RetryState::Exhausted { .. } => true,
            _ => false,
        }
    }
}

/// The state that a fresh transfer is in once the outcomes of its attempts
/// have come back in the given order (`true` for a success). Outcomes that
/// follow the end of the work are not looked at.
pub open spec fn state_after(budget: u32, outcomes: Seq<bool>) -> RetryState
    decreases outcomes.len(),
{
    if outcomes.len() == 0 {
        RetryState::Pending.begun()
    } else {
        state_after(budget, outcomes.drop_last()).observed(budget, outcomes.last())
    }
}

/// How many attempts were made by the time the given outcomes have come back:
/// an outcome counts where an attempt was under way when it arrived.
pub open spec fn attempts_made(budget: u32, outcomes: Seq<bool>) -> nat
    decreases outcomes.len(),
{
    if outcomes.len() == 0 {
        0
    } else {
        attempts_made(budget, outcomes.drop_last()) + if state_after(
            budget,
            outcomes.drop_last(),
        ).is_attempting() {
            1nat
        } else {
            0nat
        }
    }
}

/// No outcome among the first `n` is a success.
pub open spec fn all_failed(outcomes: Seq<bool>, n: int) -> bool {
    forall|i: int| 0 <= i < n && i < outcomes.len() ==> !#[trigger] outcomes[i]
}

/// Whatever the outcomes are, no more attempts are made than the budget
/// allows, and the state tells how many were made: while an attempt is under
/// way all earlier ones have failed and its number is one more than their
/// count; after a success or with the budget used up the count is final.
pub proof fn lemma_attempts_within_budget(budget: u32, outcomes: Seq<bool>)
    requires
        budget >= 1,
    ensures
        attempts_made(budget, outcomes) <= budget,
        match state_after(budget, outcomes) {
            RetryState::Pending => false,
            RetryState::Attempting { attempt } => {
                &&& attempt == attempts_made(budget, outcomes) + 1
                &&& attempt <= budget
                &&& attempts_made(budget, outcomes) == outcomes.len()
                &&& all_failed(outcomes, outcomes.len() as int)
            },
            RetryState::Succeeded { attempts } => {
                &&& attempts == attempts_made(budget, outcomes)
                &&& 1 <= attempts <= outcomes.len()
                &&& outcomes[attempts - 1]
                &&& all_failed(outcomes, attempts - 1)
            },
            RetryState::Exhausted { attempts } => {
                &&& attempts == attempts_made(budget, outcomes)
                &&& attempts == budget
                &&& budget <= outcomes.len()
                &&& all_failed(outcomes, budget as int)
            },
        },
    decreases outcomes.len(),
{
    if outcomes.len() > 0 {
        let earlier = outcomes.drop_last();
        lemma_attempts_within_budget(budget, earlier);
        assert(forall|i: int| 0 <= i < earlier.len() ==> earlier[i] == outcomes[i]);
    }
}

/// The work stops at the first success: if the attempt with number `k + 1` is
/// the first to succeed and the budget reaches that far, exactly `k + 1`
/// attempts are made, whatever outcomes might follow.
pub proof fn lemma_stops_at_first_success(budget: u32, outcomes: Seq<bool>, k: int)
    requires
        budget >= 1,
        0 <= k < outcomes.len(),
        k < budget,
        outcomes[k],
        all_failed(outcomes, k),
    ensures
        state_after(budget, outcomes) == (RetryState::Succeeded { attempts: (k + 1) as u32 }),
        attempts_made(budget, outcomes) == k + 1,
    decreases outcomes.len(),
{
    let earlier = outcomes.drop_last();
    lemma_attempts_within_budget(budget, earlier);
    if k + 1 < outcomes.len() {
        lemma_stops_at_first_success(budget, earlier, k);
    }
}

/// With every attempt of the budget failing, the work ends as exhausted after
/// exactly as many attempts as the budget allows.
pub proof fn lemma_exhausted_after_budget(budget: u32, outcomes: Seq<bool>)
    requires
        budget >= 1,
        outcomes.len() >= budget,
        all_failed(outcomes, budget as int),
    ensures
        state_after(budget, outcomes) == (RetryState::Exhausted { attempts: budget }),
        attempts_made(budget, outcomes) == budget,
    decreases outcomes.len(),
{
    let earlier = outcomes.drop_last();
    lemma_attempts_within_budget(budget, earlier);
    if outcomes.len() > budget {
        lemma_exhausted_after_budget(budget, earlier);
    }
}

} // verus!
