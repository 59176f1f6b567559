//! The executor's bookkeeping: tasks parked between polls, and what happens to a
//! task after a worker has polled it.
use vstd::prelude::*;
use std::collections::BTreeMap;
use std::sync::Arc;
use crate::task::TaskId;

verus! {

/// A spawned task: its identifier, its future and a handle on the runtime's
/// live-task counter (one handle per live task, plus the runtime's own).
pub struct Task<F> {
    pub id: TaskId,
    pub fut: F,
    pub counter: Arc<()>,
}

/// `tasks` parked one after the other into `m`; a later task replaces an earlier
/// one with the same identifier.
pub open spec fn parked_all<F>(m: Map<usize, Task<F>>, tasks: Seq<Task<F>>) -> Map<usize, Task<F>>
    decreases tasks.len(),
{
    if tasks.len() == 0 {
        m
    } else {
        parked_all(m, tasks.drop_last()).insert(tasks.last().id.0, tasks.last())
    }
}

/// Tasks that were polled, returned `Pending` and wait to be woken, by identifier.
pub struct IdleTasks<F> {
    tasks: BTreeMap<usize, Task<F>>,
}

impl<F> View for IdleTasks<F> {
    type V = Map<usize, Task<F>>;

    closed spec fn view(&self) -> Map<usize, Task<F>> {
        self.tasks@
    }
}

/// What the runtime does after being told that a task is ready.
pub enum PollAction<F> {
    /// The wake-up carried no task (`TaskId::none()`): only the main loop was nudged.
    Nothing,
    /// No parked task has the identifier; the runtime reports it.
    Missing(TaskId),
    /// The parked task is handed back to the workers.
    Resume(Task<F>),
}

impl<F> IdleTasks<F> {
    /// Every parked task is filed under its own identifier.
    pub closed spec fn wf(&self) -> bool {
        forall|k: usize| #[trigger] self.tasks@.contains_key(k) ==> self.tasks@[k].id.0 == k
    }

    /// No parked tasks.
    pub fn new() -> (t: Self)
        ensures
            t.wf(),
            t@ == Map::<usize, Task<F>>::empty(),
    {
        IdleTasks { tasks: BTreeMap::new() }
    }

    /// Parks `task` under its identifier, replacing a task parked under the same one.
    pub fn park(&mut self, task: Task<F>)
        requires
            old(self).wf(),
        ensures
            final(self).wf(),
            final(self)@ == old(self)@.insert(task.id.0, task),
    {
        broadcast use vstd::std_specs::btree::group_btree_axioms;
        let key = task.id.0;
        self.tasks.insert(key, task);
    }

    /// Parks every task of `tasks`, in order.
    pub fn park_all(&mut self, tasks: Vec<Task<F>>)
        requires
            old(self).wf(),
        ensures
            final(self).wf(),
            final(self)@ == parked_all(old(self)@, tasks@),
    {
        let ghost start = self@;
        let ghost all = tasks@;
        for task in it: tasks
            invariant
                self.wf(),
                all == it.seq(),
                self@ == parked_all(start, all.take(it.index() as int)),
        {
            proof {
                assert(all.take(it.index() + 1).drop_last() =~= all.take(it.index() as int));
            }
            self.park(task);
        }
        proof {
            assert(all.take(all.len() as int) =~= all);
        }
    }

    /// Takes the task parked under `id` out of the table, if there is one.
    pub fn take(&mut self, id: TaskId) -> (r: Option<Task<F>>)
        requires
            old(self).wf(),
        ensures
            final(self).wf(),
            final(self)@ == old(self)@.remove(id.0),
            match r {
                Some(t) => old(self)@.contains_key(id.0) && t == old(self)@[id.0] && t.id == id,
                None => !old(self)@.contains_key(id.0),
            },
    {
        broadcast use vstd::std_specs::btree::group_btree_axioms;
        let key = id.0;
        self.tasks.remove(&key)
    }

    /// One round of the runtime's main loop: park the tasks that came back
    /// pending since the last round, then act on the wake-up of `next_ready`.
    pub fn poll_step(&mut self, next_ready: TaskId, done: Vec<Task<F>>) -> (action: PollAction<F>)
        requires
            old(self).wf(),
        ensures
            final(self).wf(),
            ({
                let parked = parked_all(old(self)@, done@);
                &&& final(self)@ == parked.remove(next_ready.0)
                &&& match action {
                    PollAction::Nothing => !parked.contains_key(next_ready.0) && next_ready.0 == 0,
                    PollAction::Missing(id) => !parked.contains_key(next_ready.0) && next_ready.0
                        != 0 && id == next_ready,
                    PollAction::Resume(t) => parked.contains_key(next_ready.0) && t
                        == parked[next_ready.0],
                }
            }),
    {
        self.park_all(done);
        match self.take(next_ready) {
            None => {
                if next_ready.0 == 0 {
                    PollAction::Nothing
                } else {
                    PollAction::Missing(next_ready)
                }
            },
            Some(task) => PollAction::Resume(task),
        }
    }
}

/// The runtime a spawner belongs to is gone: its task queue or its live-task
/// counter no longer exists, or it stopped accepting tasks.
#[derive(Debug, Copy, Clone, PartialEq, Eq, Structural)]
pub struct RunTimeDead;

impl RunTimeDead {
    /// The error's text, as it is displayed.
    pub fn to_string(&self) -> (s: String)
        ensures
            s@ == "RunTimeDead"@,
    {
        String::from_str("RunTimeDead")
    }
}

/// A task that came back pending is found again when its waker fires: it is
/// parked under its identifier unless a later task with the same identifier
/// replaced it.
pub proof fn lemma_pending_task_resumes<F>(m: Map<usize, Task<F>>, done: Seq<Task<F>>, i: int)
    requires
        0 <= i < done.len(),
        forall|j: int| i < j < done.len() ==> #[trigger] done[j].id != done[i].id,
    ensures
        parked_all(m, done).contains_key(done[i].id.0),
        parked_all(m, done)[done[i].id.0] == done[i],
    decreases done.len(),
{
    if i < done.len() - 1 {
        let rest = done.drop_last();
        assert forall|j: int| i < j < rest.len() implies #[trigger] rest[j].id != rest[i].id by {
            assert(rest[j] == done[j]);
        }
        lemma_pending_task_resumes(m, rest, i);
        assert(done.last() == done[done.len() - 1]);
        assert(done.last().id != done[i].id);
        assert(rest[i] == done[i]);
    }
}

/// Parking tasks with other identifiers leaves a parked task where it was.
pub proof fn lemma_parked_task_stays<F>(m: Map<usize, Task<F>>, done: Seq<Task<F>>, k: usize)
    requires
        m.contains_key(k),
        forall|j: int| 0 <= j < done.len() ==> #[trigger] done[j].id.0 != k,
    ensures
        parked_all(m, done).contains_key(k),
        parked_all(m, done)[k] == m[k],
    decreases done.len(),
{
    if done.len() > 0 {
        let rest = done.drop_last();
        assert forall|j: int| 0 <= j < rest.len() implies #[trigger] rest[j].id.0 != k by {
            assert(rest[j] == done[j]);
        }
        lemma_parked_task_stays(m, rest, k);
        assert(done.last() == done[done.len() - 1]);
    }
}

/// A task is resumed at most once per time it is parked: once a round has
/// handed it back, a later round with no newly parked task under its identifier
/// finds nothing under it.
pub proof fn lemma_resumed_at_most_once<F>(m: Map<usize, Task<F>>, id: TaskId, done: Seq<Task<F>>)
    requires
        forall|j: int| 0 <= j < done.len() ==> #[trigger] done[j].id != id,
    ensures
        !parked_all(m.remove(id.0), done).contains_key(id.0),
    decreases done.len(),
{
    if done.len() > 0 {
        let rest = done.drop_last();
        assert forall|j: int| 0 <= j < rest.len() implies #[trigger] rest[j].id != id by {
            assert(rest[j] == done[j]);
        }
        lemma_resumed_at_most_once(m, id, rest);
        assert(done.last() == done[done.len() - 1]);
    }
}

/// A worker wakes the main loop after a poll exactly when the task it finished
/// was the last live one.
pub open spec fn wakes_main(task_handles: usize) -> bool {
    task_handles == 2
}

/// Only the runtime's own handle on the live-task counter is left.
pub open spec fn is_done(task_handles: usize) -> bool {
    task_handles == 1
}

/// The worker that finishes the last live task wakes the main loop, and it is
/// the only one that does: once that task drops its handle, the runtime is done.
pub proof fn lemma_last_task_wakes_main(task_handles: usize)
    requires
        task_handles >= 1,
    ensures
        wakes_main(task_handles) <==> is_done((task_handles - 1) as usize),
{
}

/// The main loop is woken after a finished task exactly when two handles were
/// left (the runtime's and the finishing task's), and for no other count.
pub proof fn lemma_wakes_main_exactly_at_two(task_handles: usize)
    ensures
        wakes_main(task_handles) <==> task_handles == 2,
        task_handles > 2 ==> !wakes_main(task_handles),
{
}

/// The runtime is done exactly when one handle is left, its own; any further
/// handle belongs to a live task.
pub proof fn lemma_done_exactly_at_one(task_handles: usize)
    ensures
        is_done(task_handles) <==> task_handles == 1,
        task_handles >= 2 ==> !is_done(task_handles),
{
}

/// What a worker does with a task it has just polled.
#[derive(Debug, Copy, Clone, PartialEq, Eq, Structural)]
pub enum AfterPoll {
    /// The task completed and is dropped; when it was the last live task the
    /// worker wakes the main loop so that it notices the runtime is done.
    Finished { wake_main: bool },
    /// The task is pending and goes back to the runtime to wait for its waker.
    Park,
}

/// The worker's decision after a poll, given the number of live-task handles
/// counted while the polled task still holds its own.
pub fn after_poll(completed: bool, task_handles: usize) -> (step: AfterPoll)
    ensures
        completed ==> step == (AfterPoll::Finished { wake_main: wakes_main(task_handles) }),
        completed ==> step == (AfterPoll::Finished { wake_main: task_handles == 2 }),
        !completed ==> step == AfterPoll::Park,
{
    if completed {
        AfterPoll::Finished { wake_main: task_handles == 2 }
    } else {
        AfterPoll::Park
    }
}

/// The runtime is done when only its own handle on the live-task counter is left.
pub fn all_tasks_done(task_handles: usize) -> (done: bool)
    ensures
        done == is_done(task_handles),
        done <==> task_handles == 1,
{
    task_handles == 1
}

} // verus!
