//! The running phase: every task of the join set runs until the first one
//! fails or shutdown is asked for. The first failure is the terminal result
//! and every task still pending is cancelled.
use vstd::prelude::*;

verus! {

#[derive(Clone, Copy, Debug, PartialEq, Eq, Structural)]
pub enum TaskState {
    Pending,
    Succeeded,
    Failed,
    Cancelled,
}

/// The terminal result of the running phase, once there is one.
#[derive(Clone, Debug, PartialEq, Eq)]
pub enum Outcome {
    Running,
    /// Every task finished without error.
    Completed,
    /// Shutdown was asked for before any task failed.
    Shutdown,
    /// The first task to fail, with its error.
    Failed { index: usize, error: String },
}

/// The tasks of the running phase and where each stands.
pub struct JoinSet {
    states: Vec<TaskState>,
    outcome: Outcome,
}

/// The states once the task at `index` failed first: it is failed, every
/// other pending task is cancelled.
pub open spec fn states_after_failure(s: Seq<TaskState>, index: int) -> Seq<TaskState> {
    Seq::new(
        s.len(),
        |j: int|
            if j == index {
                TaskState::Failed
            } else if s[j] == TaskState::Pending {
                TaskState::Cancelled
            } else {
                s[j]
            },
    )
}

/// The states once shutdown is asked for: every pending task is cancelled.
pub open spec fn states_after_shutdown(s: Seq<TaskState>) -> Seq<TaskState> {
    Seq::new(
        s.len(),
        |j: int|
            if s[j] == TaskState::Pending {
                TaskState::Cancelled
            } else {
                s[j]
            },
    )
}

pub open spec fn all_pending(s: Seq<TaskState>) -> bool {
    forall|j: int| 0 <= j < s.len() ==> s[j] == TaskState::Pending
}

pub open spec fn all_succeeded(s: Seq<TaskState>) -> bool {
    forall|j: int| 0 <= j < s.len() ==> s[j] == TaskState::Succeeded
}

/// Indices of the tasks that are pending in `s`, in order.
pub open spec fn pending_indices(s: Seq<TaskState>) -> Seq<usize>
    decreases s.len(),
{
    if s.len() == 0 {
        Seq::empty()
    } else {
        let rest = pending_indices(s.drop_last());
        if s.last() == TaskState::Pending {
            rest.push((s.len() - 1) as usize)
        } else {
            rest
        }
    }
}

fn all_done(states: &Vec<TaskState>) -> (r: bool)
    ensures
        r == all_succeeded(states@),
{
    let mut i: usize = 0;
    while i < states.len()
        invariant
            i <= states@.len(),
            forall|j: int| 0 <= j < i ==> states@[j] == TaskState::Succeeded,
        decreases states@.len() - i,
    {
        if states[i] != TaskState::Succeeded {
            return false;
        }
        i = i + 1;
    }
    true
}

impl JoinSet {
    pub closed spec fn states(&self) -> Seq<TaskState> {
        self.states@
    }

    pub closed spec fn outcome_spec(&self) -> Outcome {
        self.outcome
    }

    /// A join set of `n` pending tasks.
    pub fn new(n: usize) -> (r: JoinSet)
        ensures
            r.states().len() == n,
            all_pending(r.states()),
            r.outcome_spec() == Outcome::Running,
    {
        let mut states: Vec<TaskState> = Vec::new();
        let mut i: usize = 0;
        while i < n
            invariant
                i <= n,
                states@.len() == i,
                all_pending(states@),
            decreases n - i,
        {
            states.push(TaskState::Pending);
            i = i + 1;
        }
        JoinSet { states, outcome: Outcome::Running }
    }

    pub fn len(&self) -> (r: usize)
        ensures
            r == self.states().len(),
    {
        self.states.len()
    }

    pub fn state(&self, index: usize) -> (r: TaskState)
        requires
            index < self.states().len(),
        ensures
            r == self.states()[index as int],
    {
        self.states[index]
    }

    pub fn outcome(&self) -> (r: Outcome)
        ensures
            r == self.outcome_spec(),
    {
        match &self.outcome {
            Outcome::Running => Outcome::Running,
            Outcome::Completed => Outcome::Completed,
            Outcome::Shutdown => Outcome::Shutdown,
            Outcome::Failed { index, error } => Outcome::Failed {
                index: *index,
                error: error.clone(),
            },
        }
    }

    /// Cancels every pending task and returns their indices, for the caller
    /// to stop.
    fn cancel_pending(&mut self) -> (cancelled: Vec<usize>)
        ensures
            final(self).states() == states_after_shutdown(old(self).states()),
            final(self).outcome == old(self).outcome,
            cancelled@ == pending_indices(old(self).states()),
    {
        let ghost s0 = self.states@;
        let mut cancelled: Vec<usize> = Vec::new();
        let mut i: usize = 0;
        while i < self.states.len()
            invariant
                i <= self.states@.len(),
                self.states@.len() == s0.len(),
                self.outcome == old(self).outcome,
                s0 == old(self).states@,
                forall|j: int| 0 <= j < i ==> self.states@[j] == states_after_shutdown(s0)[j],
                forall|j: int| i <= j < s0.len() ==> self.states@[j] == s0[j],
                cancelled@ == pending_indices(s0.take(i as int)),
            decreases s0.len() - i,
        {
            assert(s0.take(i + 1).drop_last() =~= s0.take(i as int));
            if self.states[i] == TaskState::Pending {
                self.states.set(i, TaskState::Cancelled);
                cancelled.push(i);
            }
            i = i + 1;
        }
        assert(s0.take(s0.len() as int) =~= s0);
        assert(self.states@ =~= states_after_shutdown(s0));
        cancelled
    }

    /// The task at `index` failed. The first failure while running becomes
    /// the terminal result and cancels every pending task, whose indices are
    /// returned. Any later report changes nothing.
    pub fn on_failure(&mut self, index: usize, error: String) -> (cancelled: Vec<usize>)
        requires
            index < old(self).states().len(),
        ensures
            (old(self).outcome_spec() == Outcome::Running && old(self).states()[index as int]
                == TaskState::Pending) ==> {
                &&& final(self).outcome_spec() == (Outcome::Failed { index, error })
                &&& final(self).states() == states_after_failure(old(self).states(), index as int)
                &&& cancelled@ == pending_indices(
                    old(self).states().update(index as int, TaskState::Failed),
                )
            },
            !(old(self).outcome_spec() == Outcome::Running && old(self).states()[index as int]
                == TaskState::Pending) ==> {
                &&& *final(self) == *old(self)
                &&& cancelled@.len() == 0
            },
    {
        if !(matches!(self.outcome, Outcome::Running) && self.states[index]
            == TaskState::Pending) {
            return Vec::new();
        }
        let ghost s0 = self.states@;
        self.states.set(index, TaskState::Failed);
        let cancelled = self.cancel_pending();
        assert(self.states@ =~= states_after_failure(s0, index as int));
        self.outcome = Outcome::Failed { index, error };
        cancelled
    }

    /// The task at `index` finished without error. Once every task has, the
    /// running phase is complete.
    pub fn on_success(&mut self, index: usize)
        requires
            index < old(self).states().len(),
        ensures
            (old(self).outcome_spec() == Outcome::Running && old(self).states()[index as int]
                == TaskState::Pending) ==> {
                &&& final(self).states() == old(self).states().update(
                    index as int,
                    TaskState::Succeeded,
                )
                &&& (all_succeeded(final(self).states()) ==> final(self).outcome_spec()
                    == Outcome::Completed)
                &&& (!all_succeeded(final(self).states()) ==> final(self).outcome_spec()
                    == Outcome::Running)
            },
            !(old(self).outcome_spec() == Outcome::Running && old(self).states()[index as int]
                == TaskState::Pending) ==> *final(self) == *old(self),
    {
        if !(matches!(self.outcome, Outcome::Running) && self.states[index]
            == TaskState::Pending) {
            return;
        }
        self.states.set(index, TaskState::Succeeded);
        if all_done(&self.states) {
            self.outcome = Outcome::Completed;
        }
    }

    /// Shutdown was asked for. While running, it ends the phase with success
    /// and cancels every pending task, whose indices are returned.
    pub fn on_shutdown(&mut self) -> (cancelled: Vec<usize>)
        ensures
            old(self).outcome_spec() == Outcome::Running ==> {
                &&& final(self).outcome_spec() == Outcome::Shutdown
                &&& final(self).states() == states_after_shutdown(old(self).states())
                &&& cancelled@ == pending_indices(old(self).states())
            },
            old(self).outcome_spec() != Outcome::Running ==> {
                &&& *final(self) == *old(self)
                &&& cancelled@.len() == 0
            },
    {
        if !matches!(self.outcome, Outcome::Running) {
            return Vec::new();
        }
        let cancelled = self.cancel_pending();
        self.outcome = Outcome::Shutdown;
        cancelled
    }

    /// A detached side effect of a plugin failed. Such failures are only
    /// reported to the diagnostic sink: the join set is left as it was.
    pub fn on_detached_failure(&mut self, error: &str) -> (line: String)
        ensures
            *final(self) == *old(self),
            line@ == "detached task failed: "@ + error@,
    {
        let mut line = String::from_str("detached task failed: ");
        line.append(error);
        line
    }
}

/// A task's index is among the pending indices exactly when it is pending.
pub proof fn lemma_pending_indices(s: Seq<TaskState>, k: int)
    requires
        s.len() <= usize::MAX,
    ensures
        pending_indices(s).contains(k as usize) && 0 <= k <= usize::MAX <==> (0 <= k < s.len()
            && s[k] == TaskState::Pending),
    decreases s.len(),
{
    if s.len() > 0 {
        lemma_pending_indices(s.drop_last(), k);
        let rest = pending_indices(s.drop_last());
        if s.last() == TaskState::Pending {
            let p = rest.push((s.len() - 1) as usize);
            assert(pending_indices(s) == p);
            if 0 <= k <= usize::MAX && k != s.len() - 1 {
                if p.contains(k as usize) {
                    let x = choose|x: int| 0 <= x < p.len() && #[trigger] p[x] == k as usize;
                    if x < rest.len() {
                        assert(rest[x] == k as usize);
                    }
                }
                if rest.contains(k as usize) {
                    let x = choose|x: int| 0 <= x < rest.len() && #[trigger] rest[x] == k as usize;
                    assert(p[x] == k as usize);
                }
            }
            if k == s.len() - 1 {
                assert(p[rest.len() as int] == (s.len() - 1) as usize);
            }
        }
    }
}

/// When one task of a join set whose tasks are all pending fails, the
/// terminal result is that task's error, every other task is cancelled, and
/// the indices handed back for cancelling are exactly those of the others.
pub proof fn lemma_first_failure_cancels_others(s: Seq<TaskState>, index: int)
    requires
        all_pending(s),
        0 <= index < s.len(),
        s.len() <= usize::MAX,
    ensures
        states_after_failure(s, index)[index] == TaskState::Failed,
        forall|j: int|
            0 <= j < s.len() && j != index ==> states_after_failure(s, index)[j]
                == TaskState::Cancelled,
        forall|j: int|
            0 <= j < s.len() ==> (#[trigger] pending_indices(
                s.update(index, TaskState::Failed),
            ).contains(j as usize) <==> j != index),
{
    let u = s.update(index, TaskState::Failed);
    assert forall|j: int| 0 <= j < s.len() implies (#[trigger] pending_indices(u).contains(
        j as usize,
    ) <==> j != index) by {
        lemma_pending_indices(u, j);
    }
}

} // verus!
