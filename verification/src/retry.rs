//! Bounded retries with a fixed delay. Only a transient failure is retried;
//! every other failure ends the task at once.

use vstd::prelude::*;
use vstd::string::*;
use crate::download_task::DownloadTask;
use crate::outcome::{FailureReason, FetchOutcome, TaskOutcome};

verus! {

/// What to do after an attempt.
#[derive(Debug, PartialEq, Eq)]
pub enum RetryStep {
    /// The task is over with this outcome.
    Finish(TaskOutcome),
    /// Sleep for `delay_secs`, then attempt again; `retries_used` retries
    /// will then have been spent.
    RetryAfter { delay_secs: u64, retries_used: u32 },
}

/// How often a task may be retried, and how long to pause before each retry.
#[derive(Debug, Clone, Copy, PartialEq, Eq, Structural)]
pub struct RetryPolicy {
    /// Retries allowed after the first attempt.
    pub max_retries: u32,
    /// Pause before every retry, the same each time.
    pub retry_delay_secs: u64,
}

impl RetryPolicy {
    pub fn new(max_retries: u32, retry_delay_secs: u64) -> (policy: RetryPolicy)
        ensures
            policy.max_retries == max_retries,
            policy.retry_delay_secs == retry_delay_secs,
    {
        RetryPolicy { max_retries, retry_delay_secs }
    }

    /// The step that follows an attempt for `task` that ended in `outcome`
    /// after `retries_used` retries: success ends the task; a transient
    /// failure is retried while the budget lasts and ends the task with
    /// `RetriesExhausted` when it is spent; any other failure ends the task
    /// as it is.
    pub open spec fn step(
        &self,
        task: DownloadTask,
        retries_used: nat,
        outcome: FetchOutcome,
    ) -> RetryStep {
        match outcome {
            FetchOutcome::Downloaded => RetryStep::Finish(TaskOutcome::Succeeded),
            FetchOutcome::Skipped => RetryStep::Finish(TaskOutcome::Skipped),
            FetchOutcome::Failed(reason) => if !reason.transient() {
                RetryStep::Finish(TaskOutcome::Failed(reason))
            } else if retries_used < self.max_retries {
                RetryStep::RetryAfter {
                    delay_secs: self.retry_delay_secs,
                    retries_used: (retries_used + 1) as u32,
                }
            } else {
                RetryStep::Finish(
                    TaskOutcome::Failed(FailureReason::RetriesExhausted { table: task.table }),
                )
            },
        }
    }

    /// Decides what follows an attempt.
    pub fn decide(
        &self,
        task: &DownloadTask,
        retries_used: u32,
        outcome: FetchOutcome,
    ) -> (next: RetryStep)
        ensures
            next == self.step(*task, retries_used as nat, outcome),
    {
        match outcome {
            FetchOutcome::Downloaded => RetryStep::Finish(TaskOutcome::Succeeded),
            FetchOutcome::Skipped => RetryStep::Finish(TaskOutcome::Skipped),
            FetchOutcome::Failed(reason) => if !reason.is_transient() {
                RetryStep::Finish(TaskOutcome::Failed(reason))
            } else if retries_used < self.max_retries {
                RetryStep::RetryAfter {
                    delay_secs: self.retry_delay_secs,
                    retries_used: retries_used + 1,
                }
            } else {
                RetryStep::Finish(
                    TaskOutcome::Failed(
                        FailureReason::RetriesExhausted { table: task.table.clone() },
                    ),
                )
            },
        }
    }
}

/// What a task comes to under a policy.
pub struct Verdict {
    /// Attempts made.
    pub attempts: nat,
    /// The outcome, unless the attempts ran out before the policy was done.
    pub outcome: Option<TaskOutcome>,
}

/// Runs `policy` over the outcomes that the attempts for `task` would end
/// in, first attempt first, with `retries_used` retries already spent.
pub open spec fn verdict(
    policy: RetryPolicy,
    task: DownloadTask,
    retries_used: nat,
    outcomes: Seq<FetchOutcome>,
) -> Verdict
    decreases outcomes.len(),
{
    if outcomes.len() == 0 {
        Verdict { attempts: 0, outcome: None }
    } else {
        match policy.step(task, retries_used, outcomes[0]) {
            RetryStep::Finish(outcome) => Verdict { attempts: 1, outcome: Some(outcome) },
            RetryStep::RetryAfter { .. } => {
                let rest = verdict(policy, task, retries_used + 1, outcomes.drop_first());
                Verdict { attempts: rest.attempts + 1, outcome: rest.outcome }
            },
        }
    }
}

/// Whether `outcome` is a failure of the transient class.
pub open spec fn is_transient_failure(outcome: FetchOutcome) -> bool {
    outcome matches FetchOutcome::Failed(reason) && reason.transient()
}

/// A fetch that fails transiently every time is attempted once more than
/// there are retries left, and then the task fails with `RetriesExhausted`
/// naming its table. From the start that is `max_retries + 1` attempts; with
/// no retries allowed, exactly one.
pub proof fn lemma_transient_failures_exhaust_retries(
    policy: RetryPolicy,
    task: DownloadTask,
    retries_used: nat,
    outcomes: Seq<FetchOutcome>,
)
    requires
        retries_used <= policy.max_retries,
        outcomes.len() >= policy.max_retries - retries_used + 1,
        forall|i: int|
            0 <= i <= policy.max_retries - retries_used ==> is_transient_failure(
                #[trigger] outcomes[i],
            ),
    ensures
        verdict(policy, task, retries_used, outcomes).attempts == policy.max_retries
            - retries_used + 1,
        verdict(policy, task, retries_used, outcomes).outcome == Some(
            TaskOutcome::Failed(FailureReason::RetriesExhausted { table: task.table }),
        ),
    decreases policy.max_retries - retries_used,
{
    assert(is_transient_failure(outcomes[0]));
    if retries_used < policy.max_retries {
        let tail = outcomes.drop_first();
        assert forall|i: int|
            0 <= i <= policy.max_retries - (retries_used + 1) implies is_transient_failure(
            #[trigger] tail[i],
        ) by {
            assert(tail[i] == outcomes[i + 1]);
        }
        lemma_transient_failures_exhaust_retries(policy, task, retries_used + 1, tail);
    }
}

/// A fetch that succeeds at attempt `k`, after transient failures only, with
/// `k` within the budget, makes the task succeed after exactly `k`
/// attempts: nothing is attempted after a success.
pub proof fn lemma_success_ends_the_retries(
    policy: RetryPolicy,
    task: DownloadTask,
    retries_used: nat,
    outcomes: Seq<FetchOutcome>,
    k: nat,
)
    requires
        1 <= k <= outcomes.len(),
        retries_used + k <= policy.max_retries + 1,
        forall|i: int| 0 <= i < k - 1 ==> is_transient_failure(#[trigger] outcomes[i]),
        outcomes[k - 1] is Downloaded || outcomes[k - 1] is Skipped,
    ensures
        verdict(policy, task, retries_used, outcomes).attempts == k,
        verdict(policy, task, retries_used, outcomes).outcome == Some(
            if outcomes[k - 1] is Downloaded {
                TaskOutcome::Succeeded
            } else {
                TaskOutcome::Skipped
            },
        ),
    decreases k,
{
    if k > 1 {
        assert(is_transient_failure(outcomes[0]));
        let tail = outcomes.drop_first();
        assert forall|i: int| 0 <= i < k - 2 implies is_transient_failure(#[trigger] tail[i]) by {
            assert(tail[i] == outcomes[i + 1]);
        }
        assert(tail[k - 2] == outcomes[k - 1]);
        lemma_success_ends_the_retries(policy, task, retries_used + 1, tail, (k - 1) as nat);
    }
}

/// A failure outside the transient class, such as a refusal by the server or
/// an I/O error, ends the task at once: one attempt, whatever the budget, and
/// the failure is reported as it is.
pub proof fn lemma_other_failures_are_not_retried(
    policy: RetryPolicy,
    task: DownloadTask,
    retries_used: nat,
    outcomes: Seq<FetchOutcome>,
    reason: FailureReason,
)
    requires
        outcomes.len() >= 1,
        outcomes[0] == FetchOutcome::Failed(reason),
        !reason.transient(),
    ensures
        verdict(policy, task, retries_used, outcomes).attempts == 1,
        verdict(policy, task, retries_used, outcomes).outcome == Some(TaskOutcome::Failed(reason)),
{
}

} // verus!
