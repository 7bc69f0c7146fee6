//! Expansion of the work set and the bookkeeping of a run: which task starts
//! next, how many hold a download slot, and how the outcomes add up.

use vstd::prelude::*;
use crate::config::ConfigError;
use crate::download_task::DownloadTask;
use crate::entities::Build;
use crate::outcome::{FailureReason, RunResult, TaskOutcome};

verus! {

/// Position of the task for build `b`, locale `l`, table `t` in the expanded
/// work set: builds vary slowest, tables fastest.
pub open spec fn task_position(b: int, l: int, t: int, locales: int, tables: int) -> int {
    (b * locales + l) * tables + t
}

/// Whether `tasks` holds, at its position, the task for build `b`, locale `l`
/// and table `t`.
pub open spec fn placed(
    tasks: Seq<DownloadTask>,
    tables: Seq<String>,
    builds: Seq<Build>,
    locales: Seq<String>,
    b: int,
    l: int,
    t: int,
) -> bool {
    let i = task_position(b, l, t, locales.len() as int, tables.len() as int);
    &&& 0 <= i < tasks.len()
    &&& tasks[i].table == tables[t]
    &&& tasks[i].build == builds[b]
    &&& tasks[i].locale == locales[l]
}

/// Whether `tasks` is the full product of `builds`, `locales` and `tables`:
/// one task per combination, duplicates in the inputs included, and nothing
/// else.
pub open spec fn is_expansion(
    tasks: Seq<DownloadTask>,
    tables: Seq<String>,
    builds: Seq<Build>,
    locales: Seq<String>,
) -> bool {
    &&& tasks.len() == builds.len() * locales.len() * tables.len()
    &&& forall|b: int, l: int, t: int|
        0 <= b < builds.len() && 0 <= l < locales.len() && 0 <= t < tables.len()
            ==> #[trigger] placed(tasks, tables, builds, locales, b, l, t)
}

spec fn comes_before(b: int, l: int, t: int, nb: int, nl: int, nt: int) -> bool {
    b < nb || (b == nb && l < nl) || (b == nb && l == nl && t < nt)
}

/// Expands the requested builds, locales and tables into one task per
/// combination.
pub fn expand_tasks(tables: &Vec<String>, builds: &Vec<Build>, locales: &Vec<String>) -> (tasks:
    Vec<DownloadTask>)
    ensures
        is_expansion(tasks@, tables@, builds@, locales@),
{
    let mut tasks: Vec<DownloadTask> = Vec::new();
    let ghost nl = locales@.len() as int;
    let ghost nt = tables@.len() as int;
    let mut bi: usize = 0;
    proof {
        assert(0 * nl * nt == 0) by (nonlinear_arith);
    }
    while bi < builds.len()
        invariant
            nl == locales@.len(),
            nt == tables@.len(),
            bi <= builds@.len(),
            tasks@.len() == bi * nl * nt,
            forall|b: int, l: int, t: int|
                0 <= b < builds@.len() && 0 <= l < nl && 0 <= t < nt && comes_before(
                    b,
                    l,
                    t,
                    bi as int,
                    0,
                    0,
                ) ==> #[trigger] placed(tasks@, tables@, builds@, locales@, b, l, t),
        decreases builds@.len() - bi,
    {
        let mut li: usize = 0;
        while li < locales.len()
            invariant
                nl == locales@.len(),
                nt == tables@.len(),
                bi < builds@.len(),
                li <= nl,
                tasks@.len() == (bi * nl + li) * nt,
                forall|b: int, l: int, t: int|
                    0 <= b < builds@.len() && 0 <= l < nl && 0 <= t < nt && comes_before(
                        b,
                        l,
                        t,
                        bi as int,
                        li as int,
                        0,
                    ) ==> #[trigger] placed(tasks@, tables@, builds@, locales@, b, l, t),
            decreases nl - li,
        {
            let mut ti: usize = 0;
            while ti < tables.len()
                invariant
                    nl == locales@.len(),
                    nt == tables@.len(),
                    bi < builds@.len(),
                    li < nl,
                    ti <= nt,
                    tasks@.len() == (bi * nl + li) * nt + ti,
                    forall|b: int, l: int, t: int|
                        0 <= b < builds@.len() && 0 <= l < nl && 0 <= t < nt && comes_before(
                            b,
                            l,
                            t,
                            bi as int,
                            li as int,
                            ti as int,
                        ) ==> #[trigger] placed(tasks@, tables@, builds@, locales@, b, l, t),
                decreases nt - ti,
            {
                let ghost before = tasks@;
                let task = DownloadTask::new(
                    tables[ti].clone(),
                    builds[bi].clone(),
                    locales[li].clone(),
                );
                tasks.push(task);
                proof {
                    assert forall|b: int, l: int, t: int|
                        0 <= b < builds@.len() && 0 <= l < nl && 0 <= t < nt && comes_before(
                            b,
                            l,
                            t,
                            bi as int,
                            li as int,
                            ti + 1,
                        ) implies #[trigger] placed(
                        tasks@,
                        tables@,
                        builds@,
                        locales@,
                        b,
                        l,
                        t,
                    ) by {
                        if comes_before(b, l, t, bi as int, li as int, ti as int) {
                            assert(placed(before, tables@, builds@, locales@, b, l, t));
                        }
                    }
                }
                ti = ti + 1;
            }
            proof {
                assert((bi * nl + li) * nt + nt == (bi * nl + (li + 1)) * nt) by (nonlinear_arith);
            }
            li = li + 1;
        }
        proof {
            assert((bi * nl + nl) * nt == (bi + 1) * nl * nt) by (nonlinear_arith);
        }
        bi = bi + 1;
    }
    tasks
}

/// Where a task of a run stands.
#[derive(Debug, Clone, Copy, PartialEq, Eq, Structural)]
pub enum TaskState {
    /// Not started yet.
    Pending,
    /// Started and holding a download slot.
    Running,
    /// Ended with its file fetched and written.
    Succeeded,
    /// Ended at once because its file was already there.
    Skipped,
    /// Ended in a failure that no retry could mend.
    Failed,
}

/// The state a task is left in by `outcome`.
pub open spec fn state_of(outcome: TaskOutcome) -> TaskState {
    match outcome {
        TaskOutcome::Succeeded => TaskState::Succeeded,
        TaskOutcome::Skipped => TaskState::Skipped,
        TaskOutcome::Failed(_) => TaskState::Failed,
    }
}

/// Number of tasks of `states` that are in state `which`.
pub open spec fn count_in(states: Seq<TaskState>, which: TaskState) -> nat
    decreases states.len(),
{
    if states.len() == 0 {
        0
    } else {
        count_in(states.drop_last(), which) + if states.last() == which {
            1nat
        } else {
            0nat
        }
    }
}

proof fn lemma_count_bound(states: Seq<TaskState>, which: TaskState)
    ensures
        count_in(states, which) <= states.len(),
    decreases states.len(),
{
    if states.len() > 0 {
        lemma_count_bound(states.drop_last(), which);
    }
}

proof fn lemma_count_zero(states: Seq<TaskState>, which: TaskState)
    ensures
        count_in(states, which) == 0 <==> (forall|i: int|
            0 <= i < states.len() ==> states[i] != which),
    decreases states.len(),
{
    if states.len() > 0 {
        let front = states.drop_last();
        lemma_count_zero(front, which);
        if count_in(states, which) == 0 {
            assert forall|i: int| 0 <= i < states.len() implies states[i] != which by {
                if i < front.len() {
                    assert(front[i] == states[i]);
                }
            }
        }
        if forall|i: int| 0 <= i < states.len() ==> states[i] != which {
            assert forall|i: int| 0 <= i < front.len() implies front[i] != which by {
                assert(front[i] == states[i]);
            }
        }
    }
}

proof fn lemma_count_update(states: Seq<TaskState>, i: int, to: TaskState, which: TaskState)
    requires
        0 <= i < states.len(),
    ensures
        count_in(states.update(i, to), which) + (if states[i] == which {
            1nat
        } else {
            0nat
        }) == count_in(states, which) + (if to == which {
            1nat
        } else {
            0nat
        }),
    decreases states.len(),
{
    let after = states.update(i, to);
    if i == states.len() - 1 {
        assert(after.drop_last() =~= states.drop_last());
    } else {
        assert(after.drop_last() =~= states.drop_last().update(i, to));
        lemma_count_update(states.drop_last(), i, to, which);
    }
}

proof fn lemma_count_partition(states: Seq<TaskState>)
    ensures
        count_in(states, TaskState::Pending) + count_in(states, TaskState::Running) + count_in(
            states,
            TaskState::Succeeded,
        ) + count_in(states, TaskState::Skipped) + count_in(states, TaskState::Failed)
            == states.len(),
    decreases states.len(),
{
    if states.len() > 0 {
        lemma_count_partition(states.drop_last());
    }
}

proof fn lemma_count_uniform(states: Seq<TaskState>, which: TaskState)
    requires
        forall|i: int| 0 <= i < states.len() ==> states[i] == which,
    ensures
        count_in(states, which) == states.len(),
    decreases states.len(),
{
    if states.len() > 0 {
        let front = states.drop_last();
        assert forall|i: int| 0 <= i < front.len() implies front[i] == which by {
            assert(front[i] == states[i]);
        }
        lemma_count_uniform(front, which);
    }
}

/// Whether the task at position `i` failed and is `task`.
pub open spec fn failed_at(
    states: Seq<TaskState>,
    tasks: Seq<DownloadTask>,
    i: int,
    task: DownloadTask,
) -> bool {
    &&& 0 <= i < states.len()
    &&& i < tasks.len()
    &&& states[i] == TaskState::Failed
    &&& tasks[i] == task
}

/// Whether some task of the run failed and is `task`.
pub open spec fn has_failed(
    states: Seq<TaskState>,
    tasks: Seq<DownloadTask>,
    task: DownloadTask,
) -> bool {
    exists|i: int| #[trigger] failed_at(states, tasks, i, task)
}

/// What the scheduler tells its driver to do next.
#[derive(Debug, Clone, Copy, PartialEq, Eq, Structural)]
pub enum Dispatch {
    /// Start the task at `index`; it now holds a download slot.
    Start { index: usize },
    /// Nothing can start before a running task reports its outcome.
    Wait,
    /// Every task has reported its outcome.
    Done,
}

/// The bookkeeping of one run: the work set, the tasks that hold one of the
/// download slots, and the tally of outcomes so far.
pub struct Scheduler {
    tasks: Vec<DownloadTask>,
    states: Vec<TaskState>,
    capacity: usize,
    next: usize,
    in_flight: usize,
    result: RunResult,
}

impl Scheduler {
    /// The work set, in the order in which tasks are started.
    pub closed spec fn tasks(&self) -> Seq<DownloadTask> {
        self.tasks@
    }

    /// Where each task stands.
    pub closed spec fn states(&self) -> Seq<TaskState> {
        self.states@
    }

    /// Number of download slots.
    pub closed spec fn capacity(&self) -> nat {
        self.capacity as nat
    }

    /// Number of tasks started so far.
    pub closed spec fn admitted(&self) -> nat {
        self.next as nat
    }

    /// Number of tasks that hold a download slot.
    pub closed spec fn in_flight(&self) -> nat {
        self.in_flight as nat
    }

    /// The tally of the outcomes reported so far.
    pub closed spec fn tally(&self) -> RunResult {
        self.result
    }

    /// The invariant of the bookkeeping: tasks are started in order, the
    /// slots in use are exactly the running tasks and never more than there
    /// are slots, and the tally counts exactly the tasks that ended.
    pub open spec fn wf(&self) -> bool {
        let states = self.states();
        &&& self.capacity() >= 1
        &&& states.len() == self.tasks().len()
        &&& self.admitted() <= states.len()
        &&& forall|i: int|
            0 <= i < states.len() ==> (#[trigger] states[i] == TaskState::Pending <==> i
                >= self.admitted())
        &&& self.in_flight() == count_in(states, TaskState::Running)
        &&& self.in_flight() <= self.capacity()
        &&& self.tally().total == states.len()
        &&& self.tally().succeeded == count_in(states, TaskState::Succeeded)
        &&& self.tally().skipped == count_in(states, TaskState::Skipped)
        &&& self.tally().failed@.len() == count_in(states, TaskState::Failed)
        &&& forall|k: int|
            0 <= k < self.tally().failed@.len() ==> has_failed(
                states,
                self.tasks(),
                (#[trigger] self.tally().failed@[k]).0,
            )
    }

    /// Whether the task at `index` holds a download slot.
    pub open spec fn holds_slot(&self, index: int) -> bool {
        0 <= index < self.states().len() && self.states()[index] == TaskState::Running
    }

    /// Whether every task has ended: none is waiting to start and none runs.
    pub open spec fn all_settled(&self) -> bool {
        forall|i: int|
            0 <= i < self.states().len() ==> {
                ||| #[trigger] self.states()[i] == TaskState::Succeeded
                ||| self.states()[i] == TaskState::Skipped
                ||| self.states()[i] == TaskState::Failed
            }
    }

    /// What `dispatch` answers in this state: the next task in order while a
    /// slot is free, else to wait while a task runs, else that the run is over.
    pub open spec fn next_dispatch(&self) -> Dispatch {
        if self.admitted() < self.tasks().len() && self.in_flight() < self.capacity() {
            Dispatch::Start { index: self.admitted() as usize }
        } else if self.in_flight() > 0 {
            Dispatch::Wait
        } else {
            Dispatch::Done
        }
    }

    /// Sets up a run of `tasks` with `capacity` download slots. A run without
    /// slots is refused.
    pub fn new(tasks: Vec<DownloadTask>, capacity: usize) -> (made: Result<Scheduler, ConfigError>)
        ensures
            capacity == 0 <==> made is Err,
            made is Err ==> made == Err::<Scheduler, ConfigError>(
                ConfigError::ZeroConcurrentDownloads,
            ),
            made matches Ok(s) ==> {
                &&& s.wf()
                &&& s.tasks() == tasks@
                &&& s.capacity() == capacity
                &&& s.admitted() == 0
                &&& s.in_flight() == 0
                &&& s.tally().completed() == 0
                &&& forall|i: int| 0 <= i < tasks@.len() ==> s.states()[i] == TaskState::Pending
            },
    {
        if capacity == 0 {
            return Err(ConfigError::ZeroConcurrentDownloads);
        }
        let total = tasks.len();
        let mut states: Vec<TaskState> = Vec::new();
        while states.len() < total
            invariant
                states@.len() <= total,
                forall|i: int| 0 <= i < states@.len() ==> states@[i] == TaskState::Pending,
            decreases total - states@.len(),
        {
            states.push(TaskState::Pending);
        }
        proof {
            lemma_count_uniform(states@, TaskState::Pending);
            lemma_count_partition(states@);
        }
        Ok(Scheduler { tasks, states, capacity, next: 0, in_flight: 0, result: RunResult::new(total) })
    }

    /// Decides what the driver does next, and hands the next task a slot if
    /// it is to start.
    pub fn dispatch(&mut self) -> (order: Dispatch)
        requires
            old(self).wf(),
        ensures
            final(self).wf(),
            order == old(self).next_dispatch(),
            final(self).tasks() == old(self).tasks(),
            final(self).capacity() == old(self).capacity(),
            final(self).tally() == old(self).tally(),
            order matches Dispatch::Start { index } ==> {
                &&& index == old(self).admitted()
                &&& final(self).admitted() == index + 1
                &&& final(self).in_flight() == old(self).in_flight() + 1
                &&& final(self).states() == old(self).states().update(
                    index as int,
                    TaskState::Running,
                )
            },
            !(order is Start) ==> {
                &&& final(self).states() == old(self).states()
                &&& final(self).admitted() == old(self).admitted()
                &&& final(self).in_flight() == old(self).in_flight()
            },
            order is Done ==> final(self).all_settled(),
    {
        if self.next < self.tasks.len() && self.in_flight < self.capacity {
            let index = self.next;
            proof {
                lemma_count_update(self.states@, index as int, TaskState::Running, TaskState::Running);
                lemma_count_update(self.states@, index as int, TaskState::Running, TaskState::Succeeded);
                lemma_count_update(self.states@, index as int, TaskState::Running, TaskState::Skipped);
                lemma_count_update(self.states@, index as int, TaskState::Running, TaskState::Failed);
                assert(self.states@[index as int] == TaskState::Pending);
            }
            let ghost before = self.states@;
            self.states.set(index, TaskState::Running);
            self.next = index + 1;
            self.in_flight = self.in_flight + 1;
            proof {
                assert forall|k: int| 0 <= k < self.tally().failed@.len() implies has_failed(
                    self.states(),
                    self.tasks(),
                    (#[trigger] self.tally().failed@[k]).0,
                ) by {
                    let task = self.tally().failed@[k].0;
                    assert(has_failed(before, self.tasks(), task));
                    let i = choose|i: int| #[trigger] failed_at(before, self.tasks(), i, task);
                    assert(failed_at(self.states(), self.tasks(), i, task));
                }
            }
            Dispatch::Start { index }
        } else if self.in_flight > 0 {
            Dispatch::Wait
        } else {
            proof {
                lemma_count_zero(self.states@, TaskState::Running);
            }
            Dispatch::Done
        }
    }

    /// Takes the report that the task at `index` ended in `outcome`: the task
    /// gives its slot back, whatever the outcome, and the outcome is counted.
    /// A report for a task that holds no slot is turned down and changes
    /// nothing.
    pub fn complete(&mut self, index: usize, outcome: TaskOutcome) -> (accepted: bool)
        requires
            old(self).wf(),
        ensures
            final(self).wf(),
            accepted == old(self).holds_slot(index as int),
            final(self).tasks() == old(self).tasks(),
            final(self).capacity() == old(self).capacity(),
            final(self).admitted() == old(self).admitted(),
            accepted ==> {
                &&& final(self).states() == old(self).states().update(
                    index as int,
                    state_of(outcome),
                )
                &&& final(self).in_flight() == old(self).in_flight() - 1
                &&& final(self).tally().records(
                    &old(self).tally(),
                    old(self).tasks()[index as int],
                    outcome,
                )
            },
            !accepted ==> {
                &&& final(self).states() == old(self).states()
                &&& final(self).in_flight() == old(self).in_flight()
                &&& final(self).tally() == old(self).tally()
            },
    {
        if index >= self.states.len() {
            return false;
        }
        match self.states[index] {
            TaskState::Running => {},
            _ => {
                return false;
            },
        }
        let ghost before = self.states@;
        let ghost after = before.update(index as int, state_of(outcome));
        let ghost failed_before = self.result.failed@;
        proof {
            lemma_count_update(before, index as int, state_of(outcome), TaskState::Running);
            lemma_count_update(before, index as int, state_of(outcome), TaskState::Succeeded);
            lemma_count_update(before, index as int, state_of(outcome), TaskState::Skipped);
            lemma_count_update(before, index as int, state_of(outcome), TaskState::Failed);
            lemma_count_bound(after, TaskState::Succeeded);
            lemma_count_bound(after, TaskState::Skipped);
            lemma_count_bound(after, TaskState::Failed);
        }
        let task = self.tasks[index].clone();
        match outcome {
            TaskOutcome::Succeeded => {
                self.states.set(index, TaskState::Succeeded);
                self.result.succeeded = self.result.succeeded + 1;
            },
            TaskOutcome::Skipped => {
                self.states.set(index, TaskState::Skipped);
                self.result.skipped = self.result.skipped + 1;
            },
            TaskOutcome::Failed(reason) => {
                self.states.set(index, TaskState::Failed);
                self.result.failed.push((task, reason));
            },
        }
        self.in_flight = self.in_flight - 1;
        proof {
            assert(self.states@ == after);
            assert forall|k: int| 0 <= k < self.tally().failed@.len() implies has_failed(
                self.states(),
                self.tasks(),
                (#[trigger] self.tally().failed@[k]).0,
            ) by {
                let entry = self.tally().failed@[k].0;
                if k < failed_before.len() {
                    assert(failed_before[k] == self.tally().failed@[k]);
                    assert(has_failed(before, self.tasks(), entry));
                    let i = choose|i: int| #[trigger] failed_at(before, self.tasks(), i, entry);
                    assert(failed_at(self.states(), self.tasks(), i, entry));
                } else {
                    assert(failed_at(self.states(), self.tasks(), index as int, entry));
                }
            }
        }
        true
    }

    /// The task at `index`, if the run has one there.
    pub fn task(&self, index: usize) -> (task: Option<&DownloadTask>)
        ensures
            index < self.tasks().len() ==> task == Some(&self.tasks()[index as int]),
            index >= self.tasks().len() ==> task is None,
    {
        if index < self.tasks.len() {
            Some(&self.tasks[index])
        } else {
            None
        }
    }

    /// Number of tasks that hold a download slot right now.
    pub fn running(&self) -> (n: usize)
        ensures
            n == self.in_flight(),
    {
        self.in_flight
    }

    /// Whether every task was started and none is running any more.
    pub fn is_finished(&self) -> (finished: bool)
        ensures
            finished == (self.admitted() == self.tasks().len() && self.in_flight() == 0),
    {
        self.next == self.tasks.len() && self.in_flight == 0
    }

    /// The tally so far.
    pub fn result(&self) -> (result: &RunResult)
        ensures
            *result == self.tally(),
    {
        &self.result
    }

    /// Ends the bookkeeping and hands out the tally.
    pub fn into_result(self) -> (result: RunResult)
        ensures
            result == self.tally(),
    {
        self.result
    }
}

/// However a run got where it is, the tasks holding a download slot are
/// exactly the running ones, and there are never more of them than slots.
pub proof fn lemma_slots_never_exceed_capacity(run: Scheduler)
    requires
        run.wf(),
    ensures
        run.in_flight() == count_in(run.states(), TaskState::Running),
        run.in_flight() <= run.capacity(),
{
}

/// Once every task has ended, each task of the work set is counted exactly
/// once in the tally; for an expanded work set that is one outcome per
/// combination of build, locale and table.
pub proof fn lemma_settled_run_counts_every_task(
    run: Scheduler,
    tables: Seq<String>,
    builds: Seq<Build>,
    locales: Seq<String>,
)
    requires
        run.wf(),
        run.all_settled(),
        is_expansion(run.tasks(), tables, builds, locales),
    ensures
        run.in_flight() == 0,
        run.admitted() == run.tasks().len(),
        run.tally().total == builds.len() * locales.len() * tables.len(),
        run.tally().completed() == builds.len() * locales.len() * tables.len(),
{
    let states = run.states();
    lemma_count_partition(states);
    assert(forall|i: int| 0 <= i < states.len() ==> states[i] != TaskState::Running);
    assert(forall|i: int| 0 <= i < states.len() ==> states[i] != TaskState::Pending);
    lemma_count_zero(states, TaskState::Running);
    lemma_count_zero(states, TaskState::Pending);
    if run.admitted() < states.len() {
        assert(states[run.admitted() as int] == TaskState::Pending);
    }
}

/// A run in which exactly one task failed for good and every other task
/// succeeded reports one failure, names the task that failed, counts all the
/// others as successes, and fails as a whole.
pub proof fn lemma_one_failure_among_successes(run: Scheduler, failing: int)
    requires
        run.wf(),
        0 <= failing < run.tasks().len(),
        run.states()[failing] == TaskState::Failed,
        forall|i: int|
            0 <= i < run.tasks().len() && i != failing ==> run.states()[i] == TaskState::Succeeded,
    ensures
        run.tally().succeeded == run.tasks().len() - 1,
        run.tally().skipped == 0,
        run.tally().failed@.len() == 1,
        run.tally().failed@[0].0 == run.tasks()[failing],
        run.tally().failure(),
{
    let states = run.states();
    let others = states.update(failing, TaskState::Succeeded);
    lemma_count_uniform(others, TaskState::Succeeded);
    lemma_count_partition(others);
    lemma_count_update(states, failing, TaskState::Succeeded, TaskState::Succeeded);
    lemma_count_update(states, failing, TaskState::Succeeded, TaskState::Skipped);
    lemma_count_update(states, failing, TaskState::Succeeded, TaskState::Failed);
    let entry = run.tally().failed@[0].0;
    assert(has_failed(states, run.tasks(), entry));
    let i = choose|i: int| #[trigger] failed_at(states, run.tasks(), i, entry);
    assert(i == failing);
}

/// A run fails as a whole exactly when one of its tasks is in the failed
/// state; skipped tasks never make it fail.
pub proof fn lemma_run_fails_iff_a_task_failed(run: Scheduler)
    requires
        run.wf(),
    ensures
        run.tally().failure() <==> exists|i: int|
            0 <= i < run.states().len() && #[trigger] run.states()[i] == TaskState::Failed,
{
    lemma_count_zero(run.states(), TaskState::Failed);
}

} // verus!
