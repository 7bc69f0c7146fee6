//! One fetch attempt, as a sequence of decisions. The driver performs the
//! action it is given (waits for a send permit, looks at the target file,
//! creates a directory, sends the request, writes the body) and reports what
//! happened; the attempt answers with the next action.

use vstd::prelude::*;
use vstd::string::*;
use crate::download_task::DownloadTask;
use crate::file::{file_exists_with_size, spec_file_exists_with_size};
use crate::outcome::{FailureReason, FetchOutcome};
use crate::status::{is_success_status, spec_is_success};

verus! {

/// The browser-like agent every request names; the server turns other
/// agents away.
pub const USER_AGENT: &'static str = "Mozilla/5.0 (Windows NT 10.0; Win64; x64) AppleWebKit/537.36";

/// What an attempt is waiting for.
#[derive(Debug, PartialEq, Eq)]
pub enum FetchStage {
    /// For a send permit of the rate limiter.
    AwaitPermit,
    /// For the size of the target file, if it exists.
    AwaitProbe,
    /// For the target directory to be there.
    AwaitDirectory,
    /// For the server's answer.
    AwaitResponse,
    /// For the body to be read in full and written to the target file.
    AwaitWrite,
    /// For nothing: the attempt is over.
    Finished(FetchOutcome),
}

/// What the driver is asked to do.
#[derive(Debug, PartialEq, Eq)]
pub enum FetchAction {
    /// Wait until the rate limiter grants a send permit.
    AcquirePermit,
    /// Report whether `path` exists, and its size.
    Probe { path: String },
    /// Create the directory `path` with its parents unless it exists.
    CreateDir { path: String },
    /// Send a GET request for `url` with `user_agent` as its only header.
    Get { url: String, user_agent: String },
    /// Read the whole body, then write it to `path` in one piece.
    Write { path: String },
    /// Stop: the attempt ended in this outcome.
    Finish(FetchOutcome),
}

/// A `FetchAction` with its texts as sequences of characters.
pub enum ActionView {
    AcquirePermit,
    Probe { path: Seq<char> },
    CreateDir { path: Seq<char> },
    Get { url: Seq<char>, user_agent: Seq<char> },
    Write { path: Seq<char> },
    Finish(FetchOutcome),
}

impl View for FetchAction {
    type V = ActionView;

    open spec fn view(&self) -> ActionView {
        match *self {
            FetchAction::AcquirePermit => ActionView::AcquirePermit,
            FetchAction::Probe { path } => ActionView::Probe { path: path@ },
            FetchAction::CreateDir { path } => ActionView::CreateDir { path: path@ },
            FetchAction::Get { url, user_agent } => ActionView::Get {
                url: url@,
                user_agent: user_agent@,
            },
            FetchAction::Write { path } => ActionView::Write { path: path@ },
            FetchAction::Finish(outcome) => ActionView::Finish(outcome),
        }
    }
}

/// What the driver reports back.
#[derive(Debug, PartialEq, Eq)]
pub enum FetchEvent {
    /// The rate limiter granted a send permit.
    PermitGranted,
    /// The target file was looked at: `None` if it is not there or cannot be
    /// inspected, else its size in bytes.
    Probed { size: Option<u64> },
    /// The target directory exists now.
    DirReady,
    /// The target directory could not be created.
    DirFailed { detail: String },
    /// The server answered with this status.
    Responded { status: u16 },
    /// No answer, or no complete body, came back; `timed_out` tells whether
    /// the client's timeout was the cause.
    RequestFailed { timed_out: bool, detail: String },
    /// The body was written to the target file.
    Written,
    /// The body could not be written.
    WriteFailed { detail: String },
}

/// The failure that a request without a usable answer ends in: a timeout is
/// transient, anything else is not.
pub open spec fn request_failure(timed_out: bool, detail: String) -> FailureReason {
    if timed_out {
        FailureReason::Timeout { detail }
    } else {
        FailureReason::Transport { detail }
    }
}

/// The stage that follows `stage` when `event` is reported for `task`. An
/// event that the stage is not waiting for leaves it where it is.
pub open spec fn next_stage(
    stage: FetchStage,
    task: DownloadTask,
    event: FetchEvent,
) -> FetchStage {
    match stage {
        FetchStage::AwaitPermit => match event {
            FetchEvent::PermitGranted => FetchStage::AwaitProbe,
            _ => stage,
        },
        FetchStage::AwaitProbe => match event {
            FetchEvent::Probed { size } => if spec_file_exists_with_size(size) {
                FetchStage::Finished(FetchOutcome::Skipped)
            } else {
                FetchStage::AwaitDirectory
            },
            _ => stage,
        },
        FetchStage::AwaitDirectory => match event {
            FetchEvent::DirReady => FetchStage::AwaitResponse,
            FetchEvent::DirFailed { detail } => FetchStage::Finished(
                FetchOutcome::Failed(FailureReason::Io { detail }),
            ),
            _ => stage,
        },
        FetchStage::AwaitResponse => match event {
            FetchEvent::Responded { status } => if spec_is_success(status) {
                FetchStage::AwaitWrite
            } else {
                FetchStage::Finished(
                    FetchOutcome::Failed(FailureReason::Status { table: task.table, status }),
                )
            },
            FetchEvent::RequestFailed { timed_out, detail } => FetchStage::Finished(
                FetchOutcome::Failed(request_failure(timed_out, detail)),
            ),
            _ => stage,
        },
        FetchStage::AwaitWrite => match event {
            FetchEvent::Written => FetchStage::Finished(FetchOutcome::Downloaded),
            FetchEvent::WriteFailed { detail } => FetchStage::Finished(
                FetchOutcome::Failed(FailureReason::Io { detail }),
            ),
            FetchEvent::RequestFailed { timed_out, detail } => FetchStage::Finished(
                FetchOutcome::Failed(request_failure(timed_out, detail)),
            ),
            _ => stage,
        },
        FetchStage::Finished(_) => stage,
    }
}

/// The action that `stage` asks of the driver, for `task` below `base_url`.
pub open spec fn pending_action(
    stage: FetchStage,
    task: DownloadTask,
    base_url: Seq<char>,
) -> ActionView {
    match stage {
        FetchStage::AwaitPermit => ActionView::AcquirePermit,
        FetchStage::AwaitProbe => ActionView::Probe { path: task.path_of() },
        FetchStage::AwaitDirectory => ActionView::CreateDir { path: task.folder_of() },
        FetchStage::AwaitResponse => ActionView::Get {
            url: task.url_of(base_url),
            user_agent: USER_AGENT@,
        },
        FetchStage::AwaitWrite => ActionView::Write { path: task.path_of() },
        FetchStage::Finished(outcome) => ActionView::Finish(outcome),
    }
}

/// The stage reached from `stage` once all of `events` were reported, in
/// order.
pub open spec fn stage_after(
    stage: FetchStage,
    task: DownloadTask,
    events: Seq<FetchEvent>,
) -> FetchStage
    decreases events.len(),
{
    if events.len() == 0 {
        stage
    } else {
        stage_after(next_stage(stage, task, events[0]), task, events.drop_first())
    }
}

/// One attempt to fetch the file of one task. No retry happens in here.
pub struct FetchAttempt {
    task: DownloadTask,
    base_url: String,
    stage: FetchStage,
}

impl FetchAttempt {
    /// The task this attempt is made for.
    pub closed spec fn task(&self) -> DownloadTask {
        self.task
    }

    /// The address below which the task's table is requested.
    pub closed spec fn base_url(&self) -> Seq<char> {
        self.base_url@
    }

    /// What the attempt is waiting for.
    pub closed spec fn stage(&self) -> FetchStage {
        self.stage
    }

    /// Starts an attempt. The first thing it asks for is a send permit.
    pub fn new(task: DownloadTask, base_url: String) -> (attempt: FetchAttempt)
        ensures
            attempt.task() == task,
            attempt.base_url() == base_url@,
            attempt.stage() == FetchStage::AwaitPermit,
    {
        FetchAttempt { task, base_url, stage: FetchStage::AwaitPermit }
    }

    /// The action the attempt is waiting on.
    pub fn pending(&self) -> (action: FetchAction)
        ensures
            action@ == pending_action(self.stage(), self.task(), self.base_url()),
    {
        match &self.stage {
            FetchStage::AwaitPermit => FetchAction::AcquirePermit,
            FetchStage::AwaitProbe => FetchAction::Probe { path: self.task.output_path() },
            FetchStage::AwaitDirectory => FetchAction::CreateDir { path: self.task.folder_path() },
            FetchStage::AwaitResponse => FetchAction::Get {
                url: self.task.url(self.base_url.as_str()),
                user_agent: String::from_str(USER_AGENT),
            },
            FetchStage::AwaitWrite => FetchAction::Write { path: self.task.output_path() },
            FetchStage::Finished(outcome) => FetchAction::Finish(outcome.clone()),
        }
    }

    /// Takes the driver's report and answers with the next action.
    pub fn advance(&mut self, event: FetchEvent) -> (action: FetchAction)
        ensures
            final(self).task() == old(self).task(),
            final(self).base_url() == old(self).base_url(),
            final(self).stage() == next_stage(old(self).stage(), old(self).task(), event),
            action@ == pending_action(
                final(self).stage(),
                final(self).task(),
                final(self).base_url(),
            ),
    {
        let next: Option<FetchStage> = match &self.stage {
            FetchStage::AwaitPermit => match event {
                FetchEvent::PermitGranted => Some(FetchStage::AwaitProbe),
                _ => None,
            },
            FetchStage::AwaitProbe => match event {
                FetchEvent::Probed { size } => if file_exists_with_size(size) {
                    Some(FetchStage::Finished(FetchOutcome::Skipped))
                } else {
                    Some(FetchStage::AwaitDirectory)
                },
                _ => None,
            },
            FetchStage::AwaitDirectory => match event {
                FetchEvent::DirReady => Some(FetchStage::AwaitResponse),
                FetchEvent::DirFailed { detail } => Some(
                    FetchStage::Finished(FetchOutcome::Failed(FailureReason::Io { detail })),
                ),
                _ => None,
            },
            FetchStage::AwaitResponse => match event {
                FetchEvent::Responded { status } => if is_success_status(status) {
                    Some(FetchStage::AwaitWrite)
                } else {
                    Some(
                        FetchStage::Finished(
                            FetchOutcome::Failed(
                                FailureReason::Status { table: self.task.table.clone(), status },
                            ),
                        ),
                    )
                },
                FetchEvent::RequestFailed { timed_out, detail } => Some(
                    FetchStage::Finished(
                        FetchOutcome::Failed(classify_request_failure(timed_out, detail)),
                    ),
                ),
                _ => None,
            },
            FetchStage::AwaitWrite => match event {
                FetchEvent::Written => Some(FetchStage::Finished(FetchOutcome::Downloaded)),
                FetchEvent::WriteFailed { detail } => Some(
                    FetchStage::Finished(FetchOutcome::Failed(FailureReason::Io { detail })),
                ),
                FetchEvent::RequestFailed { timed_out, detail } => Some(
                    FetchStage::Finished(
                        FetchOutcome::Failed(classify_request_failure(timed_out, detail)),
                    ),
                ),
                _ => None,
            },
            FetchStage::Finished(_) => None,
        };
        match next {
            Some(stage) => {
                self.stage = stage;
            },
            None => {},
        }
        self.pending()
    }

    /// The outcome, once the attempt is over.
    pub fn outcome(&self) -> (outcome: Option<FetchOutcome>)
        ensures
            outcome == match self.stage() {
                FetchStage::Finished(o) => Some(o),
                _ => None,
            },
    {
        match &self.stage {
            FetchStage::Finished(outcome) => Some(outcome.clone()),
            _ => None,
        }
    }
}

/// Classifies a request that brought no usable answer.
pub fn classify_request_failure(timed_out: bool, detail: String) -> (reason: FailureReason)
    ensures
        reason == request_failure(timed_out, detail),
        reason.transient() == timed_out,
{
    if timed_out {
        FailureReason::Timeout { detail }
    } else {
        FailureReason::Transport { detail }
    }
}

/// How far an attempt has come.
pub open spec fn progress(stage: FetchStage) -> nat {
    match stage {
        FetchStage::AwaitPermit => 0,
        FetchStage::AwaitProbe => 1,
        FetchStage::AwaitDirectory => 2,
        FetchStage::AwaitResponse => 3,
        FetchStage::AwaitWrite => 4,
        FetchStage::Finished(_) => 5,
    }
}

/// An attempt never goes back. It asks for a send permit once, before
/// anything else, and a request is sent only from the stage that follows a
/// look at the target file which found nothing to keep.
pub proof fn lemma_stages_run_in_order(stage: FetchStage, task: DownloadTask, event: FetchEvent)
    ensures
        progress(next_stage(stage, task, event)) >= progress(stage),
        next_stage(stage, task, event) is AwaitPermit ==> stage is AwaitPermit,
        next_stage(stage, task, event) is AwaitResponse ==> stage is AwaitDirectory
            || stage is AwaitResponse,
        next_stage(stage, task, event) is AwaitDirectory && !(stage is AwaitDirectory) ==> {
            &&& stage is AwaitProbe
            &&& event matches FetchEvent::Probed { size }
            &&& !spec_file_exists_with_size(size)
        },
{
}

/// A finished attempt stays finished with the outcome it has, whatever is
/// reported to it.
pub proof fn lemma_finished_is_final(
    outcome: FetchOutcome,
    task: DownloadTask,
    events: Seq<FetchEvent>,
)
    ensures
        stage_after(FetchStage::Finished(outcome), task, events) == FetchStage::Finished(outcome),
    decreases events.len(),
{
    if events.len() > 0 {
        lemma_finished_is_final(outcome, task, events.drop_first());
    }
}

/// A task whose file is already there with data in it is skipped: after the
/// permit and the look at the file, the attempt is over with success, and at
/// no point of it, before or after, is the driver asked to send a request or
/// to write anything.
pub proof fn lemma_existing_file_is_never_fetched(
    task: DownloadTask,
    base_url: Seq<char>,
    size: Option<u64>,
    later: Seq<FetchEvent>,
    n: int,
)
    requires
        spec_file_exists_with_size(size),
        0 <= n <= later.len() + 2,
    ensures
        ({
            let events = seq![FetchEvent::PermitGranted, FetchEvent::Probed { size }] + later;
            let stage = stage_after(FetchStage::AwaitPermit, task, events.take(n));
            let action = pending_action(stage, task, base_url);
            &&& !(action is Get)
            &&& !(action is Write)
            &&& n >= 2 ==> action == ActionView::Finish(FetchOutcome::Skipped)
        }),
{
    let events = seq![FetchEvent::PermitGranted, FetchEvent::Probed { size }] + later;
    let prefix = events.take(n);
    if n == 0 {
    } else {
        assert(prefix[0] == FetchEvent::PermitGranted);
        let rest = prefix.drop_first();
        if n == 1 {
            assert(rest.len() == 0);
            assert(stage_after(FetchStage::AwaitProbe, task, rest) == FetchStage::AwaitProbe);
        } else {
            assert(rest[0] == FetchEvent::Probed { size });
            lemma_finished_is_final(FetchOutcome::Skipped, task, rest.drop_first());
            assert(stage_after(FetchStage::AwaitProbe, task, rest) == stage_after(
                FetchStage::Finished(FetchOutcome::Skipped),
                task,
                rest.drop_first(),
            ));
        }
    }
}

} // verus!
