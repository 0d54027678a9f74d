use vstd::prelude::*;
use vstd::arithmetic::power2::pow2;
use vstd::bits::{lemma_u64_pow2_no_overflow, lemma_u64_shl_is_mul};
use crate::error::{retryable, WebSearchError};

verus! {

/// What the caller does after an attempt: hand back this result, or sleep this many seconds
/// and attempt again.
pub enum RetryStep {
    Finished(Result<String, WebSearchError>),
    Backoff(u64),
}

/// The sleep after the failed attempt with this index (0 for the first attempt): `2^attempt`
/// seconds, held at `u64::MAX` once that no longer fits.
pub open spec fn backoff_secs(attempt: u32) -> u64 {
    if attempt < 64 {
        pow2(attempt as nat) as u64
    } else {
        u64::MAX
    }
}

/// The decision after the attempt with index `attempt` ended with `outcome`: success is handed
/// back at once; an error is handed back when it is not retryable or when `attempt` was the
/// last allowed one; otherwise the caller backs off.
pub open spec fn step(max_retries: u32, attempt: u32, outcome: Result<String, WebSearchError>) -> RetryStep {
    match outcome {
        Ok(_) => RetryStep::Finished(outcome),
        Err(e) => if !retryable(e) || attempt >= max_retries {
            RetryStep::Finished(outcome)
        } else {
            RetryStep::Backoff(backoff_secs(attempt))
        },
    }
}

/// The state of one retried operation: how many attempts may follow the first, and the index
/// of the attempt whose outcome comes next.
pub struct RetryState {
    max_retries: u32,
    attempt: u32,
    finished: bool,
}

impl RetryState {
    pub closed spec fn max_retries_spec(&self) -> u32 {
        self.max_retries
    }

    /// The index of the attempt whose outcome is recorded next.
    pub closed spec fn attempt_spec(&self) -> u32 {
        self.attempt
    }

    /// Whether a result has been handed back; no outcome may be recorded after that.
    pub closed spec fn is_finished(&self) -> bool {
        self.finished
    }

    pub closed spec fn wf(&self) -> bool {
        self.attempt <= self.max_retries
    }

    /// A fresh state: the first attempt is next.
    pub fn new(max_retries: u32) -> (r: RetryState)
        ensures
            r.wf(),
            r.max_retries_spec() == max_retries,
            r.attempt_spec() == 0,
            !r.is_finished(),
    {
        RetryState { max_retries, attempt: 0, finished: false }
    }

    /// Whether a result has been handed back.
    pub fn finished(&self) -> (r: bool)
        ensures
            r == self.is_finished(),
    {
        self.finished
    }

    /// Records the outcome of the current attempt and says what to do next.
    pub fn record(&mut self, outcome: Result<String, WebSearchError>) -> (r: RetryStep)
        requires
            old(self).wf(),
            !old(self).is_finished(),
        ensures
            r == step(old(self).max_retries_spec(), old(self).attempt_spec(), outcome),
            final(self).wf(),
            final(self).max_retries_spec() == old(self).max_retries_spec(),
            r is Finished ==> final(self).is_finished() && final(self).attempt_spec()
                == old(self).attempt_spec(),
            r is Backoff ==> !final(self).is_finished() && final(self).attempt_spec()
                == old(self).attempt_spec() + 1,
    {
        let give_up = match &outcome {
            Ok(_) => true,
            Err(e) => !e.is_retryable() || self.attempt >= self.max_retries,
        };
        if give_up {
            self.finished = true;
            return RetryStep::Finished(outcome);
        }
        let secs = backoff(self.attempt);
        self.attempt = self.attempt + 1;
        RetryStep::Backoff(secs)
    }
}

/// The sleep after the failed attempt with index `attempt`.
pub fn backoff(attempt: u32) -> (r: u64)
    ensures
        r == backoff_secs(attempt),
{
    if attempt < 64 {
        let shift = attempt as u64;
        proof {
            lemma_u64_pow2_no_overflow(shift as nat);
            lemma_u64_shl_is_mul(1, shift);
        }
        1u64 << shift
    } else {
        u64::MAX
    }
}

/// How many of `outcomes` a caller feeds in, starting at attempt `attempt`, before a result is
/// handed back (all of them when none ends the run).
pub open spec fn calls_made(max_retries: u32, attempt: u32, outcomes: Seq<Result<String, WebSearchError>>) -> nat
    decreases outcomes.len(),
{
    if outcomes.len() == 0 {
        0
    } else {
        match step(max_retries, attempt, outcomes[0]) {
            RetryStep::Finished(_) => 1,
            RetryStep::Backoff(_) => 1 + calls_made(
                max_retries,
                (attempt + 1) as u32,
                outcomes.drop_first(),
            ),
        }
    }
}

/// The result handed back for `outcomes`, if one is.
pub open spec fn result_of(max_retries: u32, attempt: u32, outcomes: Seq<Result<String, WebSearchError>>) -> Option<
    Result<String, WebSearchError>,
>
    decreases outcomes.len(),
{
    if outcomes.len() == 0 {
        None
    } else {
        match step(max_retries, attempt, outcomes[0]) {
            RetryStep::Finished(r) => Some(r),
            RetryStep::Backoff(_) => result_of(max_retries, (attempt + 1) as u32, outcomes.drop_first()),
        }
    }
}

/// The sleeps taken between the attempts, in seconds, in order.
pub open spec fn sleeps_taken(max_retries: u32, attempt: u32, outcomes: Seq<Result<String, WebSearchError>>) -> Seq<u64>
    decreases outcomes.len(),
{
    if outcomes.len() == 0 {
        Seq::empty()
    } else {
        match step(max_retries, attempt, outcomes[0]) {
            RetryStep::Finished(_) => Seq::empty(),
            RetryStep::Backoff(s) => seq![s] + sleeps_taken(
                max_retries,
                (attempt + 1) as u32,
                outcomes.drop_first(),
            ),
        }
    }
}

/// Whether `outcome` is a failure that the policy retries.
pub open spec fn retryable_failure(outcome: Result<String, WebSearchError>) -> bool {
    outcome is Err && retryable(outcome->Err_0)
}

/// A run from attempt `attempt` whose first `k - 1` outcomes are retryable failures, and whose
/// `k`-th ends the run (a success, an error that is not retryable, or the last allowed attempt),
/// makes exactly `k` calls, sleeps `2^i` seconds after the failed attempt with index `i`, and
/// hands back the `k`-th outcome.
pub proof fn lemma_run(max_retries: u32, attempt: u32, outcomes: Seq<Result<String, WebSearchError>>, k: nat)
    requires
        1 <= k <= outcomes.len(),
        attempt + k - 1 <= max_retries,
        forall|i: int| 0 <= i < k - 1 ==> retryable_failure(#[trigger] outcomes[i]),
        !retryable_failure(outcomes[k - 1]) || attempt + k - 1 == max_retries,
    ensures
        calls_made(max_retries, attempt, outcomes) == k,
        result_of(max_retries, attempt, outcomes) == Some(outcomes[k - 1]),
        sleeps_taken(max_retries, attempt, outcomes).len() == k - 1,
        forall|i: int|
            0 <= i < k - 1 ==> #[trigger] sleeps_taken(max_retries, attempt, outcomes)[i]
                == backoff_secs((attempt + i) as u32),
    decreases k,
{
    if k > 1 {
        let rest = outcomes.drop_first();
        assert forall|i: int| 0 <= i < k - 2 implies retryable_failure(#[trigger] rest[i]) by {
            assert(rest[i] == outcomes[i + 1]);
        }
        assert(rest[k - 2] == outcomes[k - 1]);
        lemma_run(max_retries, (attempt + 1) as u32, rest, (k - 1) as nat);
        let s = sleeps_taken(max_retries, attempt, outcomes);
        assert forall|i: int| 0 <= i < k - 1 implies #[trigger] s[i] == backoff_secs((attempt + i) as u32) by {
            if i > 0 {
                assert(s[i] == sleeps_taken(max_retries, (attempt + 1) as u32, rest)[i - 1]);
            }
        }
    }
}

/// An operation that fails with a retryable error on every attempt is called exactly
/// `max_retries + 1` times, and the last error is what comes back.
pub proof fn lemma_always_failing(max_retries: u32, outcomes: Seq<Result<String, WebSearchError>>)
    requires
        outcomes.len() >= max_retries + 1,
        forall|i: int| 0 <= i < outcomes.len() ==> retryable_failure(#[trigger] outcomes[i]),
    ensures
        calls_made(max_retries, 0, outcomes) == max_retries + 1,
        result_of(max_retries, 0, outcomes) == Some(outcomes[max_retries as int]),
{
    lemma_run(max_retries, 0, outcomes, (max_retries + 1) as nat);
}

/// An error that is not retryable on the first attempt is handed back after one call, with no
/// sleep.
pub proof fn lemma_not_retryable_first(max_retries: u32, outcomes: Seq<Result<String, WebSearchError>>)
    requires
        outcomes.len() >= 1,
        outcomes[0] is Err,
        !retryable(outcomes[0]->Err_0),
    ensures
        calls_made(max_retries, 0, outcomes) == 1,
        result_of(max_retries, 0, outcomes) == Some(outcomes[0]),
        sleeps_taken(max_retries, 0, outcomes).len() == 0,
{
    lemma_run(max_retries, 0, outcomes, 1);
}

/// An operation that first succeeds on call `k`, after retryable failures, with
/// `k <= max_retries + 1`, is called exactly `k` times and its success is handed back.
pub proof fn lemma_succeeds_on_call(max_retries: u32, outcomes: Seq<Result<String, WebSearchError>>, k: nat)
    requires
        1 <= k <= max_retries + 1,
        k <= outcomes.len(),
        forall|i: int| 0 <= i < k - 1 ==> retryable_failure(#[trigger] outcomes[i]),
        outcomes[k - 1] is Ok,
    ensures
        calls_made(max_retries, 0, outcomes) == k,
        result_of(max_retries, 0, outcomes) == Some(outcomes[k - 1]),
{
    lemma_run(max_retries, 0, outcomes, k);
}

} // verus!
