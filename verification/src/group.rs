use vstd::prelude::*;

verus! {

/// The phases a fail-fast group moves through: supervising its member
/// tasks, tearing the survivors down after the first termination, and done.
#[derive(Debug, Clone, Copy, PartialEq, Eq, Structural)]
pub enum Phase {
    /// Tasks spawned, group awaiting the first termination.
    Running,
    /// One task has terminated; every other task is owed a cancellation
    /// request.
    Draining,
    /// All cancellation requests have been issued and the consolidated
    /// failure has been surfaced.
    Terminated,
}

/// How the first member task to terminate was observed to terminate.
#[derive(Debug, PartialEq, Eq)]
pub enum TaskOutcome {
    /// Its own logic failed, with an application error.
    Failed { error: String },
    /// It crashed while executing.
    Panicked,
    /// It was cancelled by an external actor before it could fail by
    /// itself.
    Cancelled,
    /// It reported a completion value although it was declared to run
    /// forever: a contract violation by whoever composed the task.
    Completed,
}

/// What waiting for the first completion can deliver.
#[derive(Debug, PartialEq, Eq)]
pub enum WaitEvent {
    /// There were no tasks at all to observe.
    NoTasks,
    /// The member task with the given index terminated first, in the given
    /// way.
    FirstDone { index: usize, outcome: TaskOutcome },
}

/// The single consolidated failure a group surfaces. Success is not among
/// the possibilities: every member task is declared to run forever, so any
/// termination the group observes is one of these.
#[derive(Debug, PartialEq, Eq)]
pub enum GroupFailure {
    /// The group was asked to wait while holding no tasks: a setup error.
    NoTasksPresent,
    /// A member task's own logic failed, with its application error.
    TaskFailed { index: usize, error: String },
    /// A member task crashed while executing.
    TaskPanicked { index: usize },
    /// A member task was cancelled from outside before failing by itself.
    TaskCancelled { index: usize },
    /// A member task completed with a value although its declared output
    /// makes that impossible: a defect the caller should raise fatally
    /// rather than treat as an ordinary failure.
    CompletionDefect { index: usize },
}

/// The consolidated failure that a first-termination outcome maps to: each
/// way of terminating is reported under a kind of its own, carrying the
/// index of the task concerned.
pub open spec fn report_of(index: usize, outcome: TaskOutcome) -> GroupFailure {
    match outcome {
        TaskOutcome::Failed { error } => GroupFailure::TaskFailed { index, error },
        TaskOutcome::Panicked => GroupFailure::TaskPanicked { index },
        TaskOutcome::Cancelled => GroupFailure::TaskCancelled { index },
        TaskOutcome::Completed => GroupFailure::CompletionDefect { index },
    }
}

/// The consolidated failure that a wait event maps to.
pub open spec fn event_failure(event: WaitEvent) -> GroupFailure {
    match event {
        WaitEvent::NoTasks => GroupFailure::NoTasksPresent,
        WaitEvent::FirstDone { index, outcome } => report_of(index, outcome),
    }
}

/// A fail-fast group of always-running tasks.
///
/// The group records how many member tasks were spawned and supervises them
/// by indices; the handles themselves live with whatever runs the tasks.
/// Exactly one termination event is ever consumed: it carries the whole
/// group from `Running` to `Draining` (or, with nothing to observe,
/// straight to `Terminated`) and determines the one failure the group
/// reports.
pub struct FailFastGroup {
    stage: Phase,
    spawned: usize,
    first_done: Option<usize>,
}

#[verifier::type_invariant]
spec fn group_wf(g: FailFastGroup) -> bool {
    &&& g.stage is Running ==> g.first_done is None
    &&& g.stage is Draining ==> (g.first_done matches Some(done) && done < g.spawned)
}

impl FailFastGroup {
    /// The group's current phase.
    pub closed spec fn phase(&self) -> Phase {
        self.stage
    }

    /// How many member tasks have been spawned into the group.
    pub closed spec fn task_count(&self) -> nat {
        self.spawned as nat
    }

    /// The member task whose termination was observed first, once one has
    /// been.
    pub closed spec fn first_completed(&self) -> Option<usize> {
        self.first_done
    }

    /// A fresh group: running, with no tasks spawned yet.
    pub fn new() -> (g: Self)
        ensures
            g.phase() is Running,
            g.task_count() == 0,
            g.first_completed() is None,
    {
        FailFastGroup { stage: Phase::Running, spawned: 0, first_done: None }
    }

    /// Records one more spawned member task and returns its index. All
    /// spawning happens before the wait begins, so the group must still be
    /// running.
    pub fn spawn_task(&mut self) -> (index: usize)
        requires
            old(self).phase() is Running,
            old(self).task_count() < usize::MAX,
        ensures
            index == old(self).task_count(),
            final(self).phase() is Running,
            final(self).task_count() == old(self).task_count() + 1,
            final(self).first_completed() is None,
    {
        proof {
            use_type_invariant(&*self);
        }
        let index = self.spawned;
        self.spawned = self.spawned + 1;
        index
    }

    /// The group's single suspension point has delivered its event: the
    /// first member task terminated, or there was nothing to observe.
    ///
    /// The event is converted into the group's one consolidated failure —
    /// exactly `event_failure(event)`, never anything else — and the group
    /// moves on: straight to `Terminated` when it held no tasks, else to
    /// `Draining`, where every other task is owed a cancellation request.
    pub fn observe_first(&mut self, event: WaitEvent) -> (r: GroupFailure)
        requires
            old(self).phase() is Running,
            event matches WaitEvent::FirstDone { index, .. } ==> index < old(self).task_count(),
        ensures
            r == event_failure(event),
            final(self).task_count() == old(self).task_count(),
            event is NoTasks ==> final(self).phase() is Terminated
                && final(self).first_completed() is None,
            event matches WaitEvent::FirstDone { index, .. } ==> (final(self).phase() is Draining
                && final(self).first_completed() == Some(index)),
    {
        proof {
            use_type_invariant(&*self);
        }
        match event {
            WaitEvent::NoTasks => {
                *self = FailFastGroup {
                    stage: Phase::Terminated,
                    spawned: self.spawned,
                    first_done: None,
                };
                GroupFailure::NoTasksPresent
            },
            WaitEvent::FirstDone { index, outcome } => {
                *self = FailFastGroup {
                    stage: Phase::Draining,
                    spawned: self.spawned,
                    first_done: Some(index),
                };
                match outcome {
                    TaskOutcome::Failed { error } => GroupFailure::TaskFailed { index, error },
                    TaskOutcome::Panicked => GroupFailure::TaskPanicked { index },
                    TaskOutcome::Cancelled => GroupFailure::TaskCancelled { index },
                    TaskOutcome::Completed => GroupFailure::CompletionDefect { index },
                }
            },
        }
    }

    /// The batch of cancellation requests the group owes while draining:
    /// the index of every member task except the one that terminated, in
    /// increasing order. Issuing them is the caller's side of the
    /// collaboration; their relative order carries no meaning.
    pub fn cancellation_targets(&self) -> (targets: Vec<usize>)
        requires
            self.phase() is Draining,
        ensures
            self.first_completed() matches Some(done) ==> (targets@.len()
                == self.task_count() - 1 && (forall|k: int|
                0 <= k < targets@.len() ==> targets@[k] as int == (if k < done as int {
                    k
                } else {
                    k + 1
                })) && (forall|j: usize|
                j < self.task_count() && j != done ==> targets@.contains(j)) && (forall|k: int|
                0 <= k < targets@.len() ==> targets@[k] != done
                    && (targets@[k] as int) < self.task_count())),
    {
        proof {
            use_type_invariant(&*self);
        }
        let done = match self.first_done {
            Some(i) => i,
            None => vstd::pervasive::unreached(),
        };
        let mut targets: Vec<usize> = Vec::new();
        let mut j: usize = 0;
        while j < self.spawned
            invariant
                j <= self.spawned,
                done < self.spawned,
                targets@.len() == (if j <= done {
                    j as int
                } else {
                    j - 1
                }),
                forall|k: int|
                    0 <= k < targets@.len() ==> targets@[k] as int == (if k < done as int {
                        k
                    } else {
                        k + 1
                    }),
            decreases self.spawned - j,
        {
            if j != done {
                targets.push(j);
            }
            j = j + 1;
        }
        proof {
            assert forall|jj: usize| jj < self.task_count() && jj != done implies targets@.contains(
                jj,
            ) by {
                if jj < done {
                    assert(targets@[jj as int] == jj);
                } else {
                    assert(targets@[jj as int - 1] == jj);
                }
            }
        }
        targets
    }

    /// Every cancellation request has been issued; the group is done. The
    /// group does not wait for the cancelled tasks to confirm their
    /// shutdown.
    pub fn finish_draining(&mut self)
        requires
            old(self).phase() is Draining,
        ensures
            final(self).phase() is Terminated,
            final(self).task_count() == old(self).task_count(),
            final(self).first_completed() == old(self).first_completed(),
    {
        proof {
            use_type_invariant(&*self);
        }
        self.stage = Phase::Terminated;
    }

    /// The group's current phase, for callers outside any proof.
    pub fn current_phase(&self) -> (p: Phase)
        ensures
            p == self.phase(),
    {
        self.stage
    }

    /// How many member tasks have been spawned, for callers outside any
    /// proof.
    pub fn spawned_tasks(&self) -> (n: usize)
        ensures
            n == self.task_count(),
    {
        self.spawned
    }

    /// The member task whose termination was observed first, for callers
    /// outside any proof.
    pub fn first_completed_task(&self) -> (r: Option<usize>)
        ensures
            r == self.first_completed(),
    {
        self.first_done
    }
}

impl GroupFailure {
    /// True exactly of the report of an impossible completion: a defect the
    /// caller should raise fatally rather than treat as an ordinary
    /// failure.
    pub fn is_defect(&self) -> (b: bool)
        ensures
            b == (self is CompletionDefect),
    {
        matches!(self, GroupFailure::CompletionDefect { .. })
    }

    /// A short human-readable phrase for the failure kind; the application
    /// error itself, where one is carried, stays available by matching.
    pub fn describe(&self) -> (s: &'static str)
        ensures
            self is NoTasksPresent ==> s@ == "no tasks present"@,
            self is TaskFailed ==> s@ == "task failed"@,
            self is TaskPanicked ==> s@ == "task panicked"@,
            self is TaskCancelled ==> s@ == "task was cancelled unexpectedly"@,
            self is CompletionDefect ==> s@ == "impossible completion observed"@,
    {
        match self {
            GroupFailure::NoTasksPresent => "no tasks present",
            GroupFailure::TaskFailed { .. } => "task failed",
            GroupFailure::TaskPanicked { .. } => "task panicked",
            GroupFailure::TaskCancelled { .. } => "task was cancelled unexpectedly",
            GroupFailure::CompletionDefect { .. } => "impossible completion observed",
        }
    }
}

/// First failure wins: the failure consolidated for a first-termination
/// event is the failing task's own — the same task index and the same
/// application error, under the kind that means "its own logic failed".
pub proof fn lemma_first_failure_wins(index: usize, error: String)
    ensures
        event_failure(WaitEvent::FirstDone { index, outcome: TaskOutcome::Failed { error } })
            == (GroupFailure::TaskFailed { index, error }),
{
}

/// A group that held no tasks reports exactly the "no tasks present"
/// condition, and no first-termination event can ever be reported under
/// that kind.
pub proof fn lemma_empty_group_distinct()
    ensures
        event_failure(WaitEvent::NoTasks) is NoTasksPresent,
        forall|index: usize, outcome: TaskOutcome|
            #[trigger] event_failure(WaitEvent::FirstDone { index, outcome }) !is NoTasksPresent,
{
}

/// A task torn down from outside is reported distinguishably from one that
/// failed by its own logic and from one that crashed.
pub proof fn lemma_cancellation_distinct(index: usize, other: usize, error: String)
    ensures
        report_of(index, TaskOutcome::Cancelled) is TaskCancelled,
        report_of(index, TaskOutcome::Cancelled) != (GroupFailure::TaskFailed {
            index: other,
            error,
        }),
        report_of(index, TaskOutcome::Cancelled) != (GroupFailure::TaskPanicked { index: other }),
{
}

} // verus!
