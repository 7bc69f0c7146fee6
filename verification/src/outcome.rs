//! What an attempt, a task and a whole run can end in.

use vstd::prelude::*;
use vstd::string::*;
use crate::download_task::DownloadTask;
use crate::status::{describe_status, rejection_message, spec_rejection_message, status_text};

verus! {

/// Why a fetch did not produce its file.
#[derive(Debug, PartialEq, Eq)]
pub enum FailureReason {
    /// The request ran into the client's timeout. The only transient class.
    Timeout { detail: String },
    /// The server answered with a status outside 200..=299.
    Status { table: String, status: u16 },
    /// A directory could not be created or the file could not be written.
    Io { detail: String },
    /// The request failed for a reason other than a timeout.
    Transport { detail: String },
    /// Every permitted attempt ended in a transient failure.
    RetriesExhausted { table: String },
}

impl FailureReason {
    /// Whether another attempt may be made after this failure.
    pub open spec fn transient(&self) -> bool {
        *self is Timeout
    }

    pub fn is_transient(&self) -> (transient: bool)
        ensures
            transient == self.transient(),
    {
        match self {
            FailureReason::Timeout { .. } => true,
            _ => false,
        }
    }

    /// The report of this failure as it is shown to the user. A rejection
    /// names the table and the status; used-up retries name the table; the
    /// other failures are reported in the words they came with.
    pub open spec fn message_text(&self) -> Seq<char> {
        match *self {
            FailureReason::Timeout { detail } => detail@,
            FailureReason::Status { table, status } => spec_rejection_message(
                table@,
                status_text(status),
            ),
            FailureReason::Io { detail } => detail@,
            FailureReason::Transport { detail } => detail@,
            FailureReason::RetriesExhausted { table } => {
                "The number of attempts for the table has been exceeded "@ + table@
            },
        }
    }

    /// Words the report of this failure.
    pub fn message(&self) -> (text: String)
        ensures
            text@ == self.message_text(),
    {
        match self {
            FailureReason::Timeout { detail } => detail.clone(),
            FailureReason::Status { table, status } => {
                let shown = describe_status(*status);
                rejection_message(table.as_str(), shown.as_str())
            },
            FailureReason::Io { detail } => detail.clone(),
            FailureReason::Transport { detail } => detail.clone(),
            FailureReason::RetriesExhausted { table } => {
                let mut text = String::from_str(
                    "The number of attempts for the table has been exceeded ",
                );
                text.append(table.as_str());
                text
            },
        }
    }
}

impl Clone for FailureReason {
    fn clone(&self) -> (copy: FailureReason)
        ensures
            copy == *self,
    {
        match self {
            FailureReason::Timeout { detail } => FailureReason::Timeout { detail: detail.clone() },
            FailureReason::Status { table, status } => FailureReason::Status {
                table: table.clone(),
                status: *status,
            },
            FailureReason::Io { detail } => FailureReason::Io { detail: detail.clone() },
            FailureReason::Transport { detail } => FailureReason::Transport {
                detail: detail.clone(),
            },
            FailureReason::RetriesExhausted { table } => FailureReason::RetriesExhausted {
                table: table.clone(),
            },
        }
    }
}

/// How a single fetch attempt ended.
#[derive(Debug, PartialEq, Eq)]
pub enum FetchOutcome {
    /// The body was fetched and written.
    Downloaded,
    /// The file was already there; nothing was requested.
    Skipped,
    Failed(FailureReason),
}

impl Clone for FetchOutcome {
    fn clone(&self) -> (copy: FetchOutcome)
        ensures
            copy == *self,
    {
        match self {
            FetchOutcome::Downloaded => FetchOutcome::Downloaded,
            FetchOutcome::Skipped => FetchOutcome::Skipped,
            FetchOutcome::Failed(reason) => FetchOutcome::Failed(reason.clone()),
        }
    }
}

/// How a task ended once its retry budget had its say.
#[derive(Debug, PartialEq, Eq)]
pub enum TaskOutcome {
    Succeeded,
    Skipped,
    Failed(FailureReason),
}

/// The tally of a run.
#[derive(Debug)]
pub struct RunResult {
    /// Number of tasks in the run.
    pub total: usize,
    /// Tasks whose file was fetched and written.
    pub succeeded: usize,
    /// Tasks whose file was already present.
    pub skipped: usize,
    /// Tasks that failed for good, each with its reason, in order of report.
    pub failed: Vec<(DownloadTask, FailureReason)>,
}

impl RunResult {
    /// Number of tasks whose outcome has been recorded.
    pub open spec fn completed(&self) -> nat {
        (self.succeeded + self.skipped + self.failed@.len()) as nat
    }

    /// A run fails exactly when at least one of its tasks failed; skipped
    /// tasks do not count against it.
    pub open spec fn failure(&self) -> bool {
        self.failed@.len() > 0
    }

    /// Whether this tally is `before` with one more outcome of `task` counted.
    pub open spec fn records(
        &self,
        before: &RunResult,
        task: DownloadTask,
        outcome: TaskOutcome,
    ) -> bool {
        &&& self.total == before.total
        &&& match outcome {
            TaskOutcome::Succeeded => {
                &&& self.succeeded == before.succeeded + 1
                &&& self.skipped == before.skipped
                &&& self.failed@ == before.failed@
            },
            TaskOutcome::Skipped => {
                &&& self.succeeded == before.succeeded
                &&& self.skipped == before.skipped + 1
                &&& self.failed@ == before.failed@
            },
            TaskOutcome::Failed(reason) => {
                &&& self.succeeded == before.succeeded
                &&& self.skipped == before.skipped
                &&& self.failed@ == before.failed@.push((task, reason))
            },
        }
    }

    /// An empty tally for a run of `total` tasks.
    pub fn new(total: usize) -> (result: RunResult)
        ensures
            result.total == total,
            result.succeeded == 0,
            result.skipped == 0,
            result.failed@.len() == 0,
    {
        RunResult { total, succeeded: 0, skipped: 0, failed: Vec::new() }
    }

    /// Whether the run as a whole failed.
    pub fn is_failure(&self) -> (failed: bool)
        ensures
            failed == self.failure(),
    {
        self.failed.len() > 0
    }
}

} // verus!
