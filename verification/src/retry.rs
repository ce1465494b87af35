//! Retrying a bus operation through brief USB interruptions.
//!
//! An operation is tried at most a given number of times. A success ends the
//! retries at once; a transient failure (a timeout or an interrupted call) is
//! retried after a short delay while attempts remain; any other failure, or a
//! failure on the last attempt, is returned as it is.
use vstd::prelude::*;

verus! {

/// Delay before the next attempt after a transient failure, in milliseconds.
pub const RETRY_DELAY_MS: u64 = 20;

/// How one attempt of the operation ended.
#[derive(Debug, Clone, Copy, PartialEq, Eq, Structural)]
pub enum AttemptOutcome {
    Succeeded,
    /// A timeout or an interrupted call: worth another try.
    TransientFailure,
    /// Any other error.
    OtherFailure,
}

/// What to do after an attempt.
#[derive(Debug, Clone, Copy, PartialEq, Eq, Structural)]
pub enum RetryDecision {
    /// Return the value the attempt produced.
    ReturnValue,
    /// Wait `RETRY_DELAY_MS`, then try again.
    RetryAfterDelay,
    /// Return the error the attempt produced.
    ReturnError,
}

pub open spec fn retry_decision_spec(attempt: nat, attempts: nat, outcome: AttemptOutcome) -> RetryDecision {
    match outcome {
        AttemptOutcome::Succeeded => RetryDecision::ReturnValue,
        AttemptOutcome::TransientFailure => if attempt + 1 < attempts {
            RetryDecision::RetryAfterDelay
        } else {
            RetryDecision::ReturnError
        },
        AttemptOutcome::OtherFailure => RetryDecision::ReturnError,
    }
}

/// Decide after attempt number `attempt` (counting from 0) out of `attempts`.
pub fn retry_decision(attempt: u64, attempts: u64, outcome: AttemptOutcome) -> (d: RetryDecision)
    requires
        attempt < attempts,
    ensures
        d == retry_decision_spec(attempt as nat, attempts as nat, outcome),
{
    match outcome {
        AttemptOutcome::Succeeded => RetryDecision::ReturnValue,
        AttemptOutcome::TransientFailure => {
            if attempt < attempts - 1 {
                RetryDecision::RetryAfterDelay
            } else {
                RetryDecision::ReturnError
            }
        },
        AttemptOutcome::OtherFailure => RetryDecision::ReturnError,
    }
}

/// A retried operation whose successive attempts end as `outcomes` says,
/// followed from attempt `attempt` on: the number of attempts made in all
/// and whether a value was returned.
pub open spec fn retry_run(outcomes: Seq<AttemptOutcome>, attempts: nat, attempt: nat) -> (nat, bool)
    decreases attempts - attempt,
{
    if attempt >= attempts || attempt >= outcomes.len() {
        (attempt, false)
    } else {
        match retry_decision_spec(attempt, attempts, outcomes[attempt as int]) {
            RetryDecision::ReturnValue => (attempt + 1, true),
            RetryDecision::ReturnError => (attempt + 1, false),
            RetryDecision::RetryAfterDelay => retry_run(outcomes, attempts, attempt + 1),
        }
    }
}

/// Attempts `from` up to `k`, `k` excluded, all failed transiently.
pub open spec fn transient_until(outcomes: Seq<AttemptOutcome>, from: int, k: int) -> bool {
    forall|j: int| from <= j < k ==> #[trigger] outcomes[j] == AttemptOutcome::TransientFailure
}

/// Attempt `k` is the first success counting from attempt `from`, within
/// `attempts` attempts.
pub open spec fn first_success_at(outcomes: Seq<AttemptOutcome>, attempts: nat, from: int, k: int) -> bool {
    &&& from <= k < attempts
    &&& outcomes[k] == AttemptOutcome::Succeeded
    &&& transient_until(outcomes, from, k)
}

/// A retried operation is attempted at most `attempts` times, and returns a
/// value exactly when some attempt succeeds after nothing but transient
/// failures.
pub proof fn lemma_retry_run(outcomes: Seq<AttemptOutcome>, attempts: nat, attempt: nat)
    requires
        attempt < attempts <= outcomes.len(),
    ensures
        attempt < retry_run(outcomes, attempts, attempt).0 <= attempts,
        retry_run(outcomes, attempts, attempt).1 <==> exists|k: int|
            #[trigger] first_success_at(outcomes, attempts, attempt as int, k),
    decreases attempts - attempt,
{
    let o = outcomes[attempt as int];
    if o == AttemptOutcome::Succeeded {
        assert(first_success_at(outcomes, attempts, attempt as int, attempt as int));
    } else if o == AttemptOutcome::OtherFailure || attempt + 1 >= attempts {
        assert forall|k: int| !#[trigger] first_success_at(outcomes, attempts, attempt as int, k) by {
            if first_success_at(outcomes, attempts, attempt as int, k) && k > attempt {
                assert(outcomes[attempt as int] == AttemptOutcome::TransientFailure);
            }
        }
    } else {
        lemma_retry_run(outcomes, attempts, attempt + 1);
        assert forall|k: int| #[trigger] first_success_at(outcomes, attempts, attempt as int, k)
            implies first_success_at(outcomes, attempts, (attempt + 1) as int, k) by {
            assert(k != attempt);
        }
        assert forall|k: int| #[trigger] first_success_at(outcomes, attempts, (attempt + 1) as int, k)
            implies first_success_at(outcomes, attempts, attempt as int, k) by {
        }
    }
}

} // verus!
