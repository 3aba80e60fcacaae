//! The decisions of retrying an operation on a backoff schedule: after each
//! attempt, whether to stop or to consult the schedule, and after consulting
//! it, whether to wait and retry.
use vstd::prelude::*;

verus! {

/// What to do after an attempt.
#[derive(Clone, Copy, Debug, PartialEq, Eq, Structural)]
pub enum RetryDecision {
    /// Return the attempt's result.
    Finish,
    /// Ask the backoff schedule for the delay with this index (the number of
    /// retries made so far).
    ConsultBackoff { attempts_made: usize },
}

/// What to do once the schedule has answered.
#[derive(Clone, Copy, Debug, PartialEq, Eq, Structural)]
pub enum BackoffDecision {
    /// The schedule is exhausted: return the last error.
    Finish,
    /// Sleep for the delay, then attempt again.
    SleepThenRetry,
}

/// The retries made so far in one run.
pub struct RetryState {
    retries_made: usize,
}

/// After an attempt: a success, or an error that is not retryable, ends the
/// run; a retryable error consults the schedule at the number of retries
/// made so far.
pub open spec fn decision_after_attempt(retries: nat, succeeded: bool, retryable: bool) -> Option<
    nat,
> {
    if succeeded || !retryable {
        None
    } else {
        Some(retries)
    }
}

impl RetryState {
    /// The number of retries made so far.
    pub closed spec fn retries(self) -> nat {
        self.retries_made as nat
    }

    /// The state before the first attempt.
    pub fn new() -> (r: Self)
        ensures
            r.retries() == 0,
    {
        RetryState { retries_made: 0 }
    }

    /// The decision after an attempt that succeeded or failed.
    pub fn after_attempt(&self, succeeded: bool, retryable: bool) -> (r: RetryDecision)
        ensures
            match r {
                RetryDecision::Finish => decision_after_attempt(self.retries(), succeeded, retryable)
                    is None,
                RetryDecision::ConsultBackoff { attempts_made } => decision_after_attempt(
                    self.retries(),
                    succeeded,
                    retryable,
                ) == Some(attempts_made as nat),
            },
    {
        if succeeded || !retryable {
            RetryDecision::Finish
        } else {
            RetryDecision::ConsultBackoff { attempts_made: self.retries_made }
        }
    }

    /// The decision once the schedule has answered whether it grants a
    /// delay; a granted delay counts one more retry (the count saturates).
    pub fn after_backoff(&mut self, delay_granted: bool) -> (r: BackoffDecision)
        ensures
            delay_granted ==> r == BackoffDecision::SleepThenRetry && final(self).retries() == if old(
                self,
            ).retries() < usize::MAX {
                old(self).retries() + 1
            } else {
                old(self).retries()
            },
            !delay_granted ==> r == BackoffDecision::Finish && final(self).retries() == old(
                self,
            ).retries(),
    {
        if delay_granted {
            if self.retries_made < usize::MAX {
                self.retries_made = self.retries_made + 1;
            }
            BackoffDecision::SleepThenRetry
        } else {
            BackoffDecision::Finish
        }
    }
}

/// The number of attempts a run makes, given the outcome of each attempt in
/// order (succeeded, retryable) and which schedule indices grant a delay,
/// starting with `retries` retries made.
pub open spec fn run_attempts(
    outcomes: Seq<(bool, bool)>,
    grants: spec_fn(nat) -> bool,
    retries: nat,
) -> nat
    decreases outcomes.len(),
{
    if outcomes.len() == 0 {
        0
    } else {
        match decision_after_attempt(retries, outcomes[0].0, outcomes[0].1) {
            None => 1,
            Some(index) => if grants(index) {
                1 + run_attempts(outcomes.drop_first(), grants, retries + 1)
            } else {
                1
            },
        }
    }
}

/// When every attempt fails with a retryable error, a schedule that grants
/// exactly `n` delays gives one initial attempt plus one retry per delay.
pub proof fn law_exhausted_schedule_attempts(outcomes: Seq<(bool, bool)>, n: nat)
    requires
        outcomes.len() > n,
        forall|i: int| 0 <= i < outcomes.len() ==> !(#[trigger] outcomes[i]).0 && outcomes[i].1,
    ensures
        run_attempts(outcomes, |i: nat| i < n, 0) == n + 1,
{
    lemma_exhausted_from(outcomes, n, 0);
}

proof fn lemma_exhausted_from(outcomes: Seq<(bool, bool)>, n: nat, r: nat)
    requires
        r <= n,
        outcomes.len() > n - r,
        forall|i: int| 0 <= i < outcomes.len() ==> !(#[trigger] outcomes[i]).0 && outcomes[i].1,
    ensures
        run_attempts(outcomes, |i: nat| i < n, r) == n - r + 1,
    decreases n - r,
{
    assert(!outcomes[0].0 && outcomes[0].1);
    if r < n {
        let rest = outcomes.drop_first();
        assert forall|i: int| 0 <= i < rest.len() implies !(#[trigger] rest[i]).0 && rest[i].1 by {
            assert(rest[i] == outcomes[i + 1]);
        }
        lemma_exhausted_from(rest, n, r + 1);
    }
}

/// An error that is not retryable ends the run after its attempt, whatever
/// the schedule.
pub proof fn law_non_retryable_fails_fast(
    outcomes: Seq<(bool, bool)>,
    grants: spec_fn(nat) -> bool,
    retries: nat,
)
    requires
        outcomes.len() > 0,
        !outcomes[0].1,
    ensures
        run_attempts(outcomes, grants, retries) == 1,
{
}

/// A success ends the run after its attempt.
pub proof fn law_success_ends_run(
    outcomes: Seq<(bool, bool)>,
    grants: spec_fn(nat) -> bool,
    retries: nat,
)
    requires
        outcomes.len() > 0,
        outcomes[0].0,
    ensures
        run_attempts(outcomes, grants, retries) == 1,
{
}

} // verus!
