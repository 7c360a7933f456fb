//! The task store: tasks in the order they were appended, and a flag that
//! says whether the store can still be used.
//!
//! The store is a plain value. Whoever shares it between threads keeps it
//! behind a lock, so that `&mut self` and `&self` are the only ways in, and
//! reports a lock that a failing holder left unusable with
//! [`TaskStore::poison`].

use crate::task::{task_views, Task, TaskView};
use crate::time::Time;
use vstd::prelude::*;

verus! {

/// Why the store did not serve a call.
#[derive(Clone, Copy, Debug, PartialEq, Eq, Structural)]
pub enum StoreError {
    /// The store was poisoned: a holder of its lock failed while inside.
    StoreUnavailable,
}

/// What a store is to the contracts.
pub struct StoreState {
    /// The tasks, oldest first.
    pub tasks: Seq<TaskView>,
    /// Whether the store has been given up. Nothing clears this.
    pub poisoned: bool,
}

/// One call on a store, as far as it bears on what the store holds.
pub enum StoreOp {
    /// An append of the task given.
    Append(TaskView),
    /// A snapshot.
    Snapshot,
}

impl StoreState {
    /// A store as it is made: empty and usable.
    pub open spec fn fresh() -> StoreState {
        StoreState { tasks: Seq::empty(), poisoned: false }
    }

    /// The store after an append: with the task at its end, or, if it is
    /// poisoned, as it was.
    pub open spec fn append(self, task: TaskView) -> StoreState {
        if self.poisoned {
            self
        } else {
            StoreState { tasks: self.tasks.push(task), poisoned: false }
        }
    }

    /// What a call that needs the store answers before anything else.
    pub open spec fn access(self) -> Result<(), StoreError> {
        if self.poisoned {
            Err(StoreError::StoreUnavailable)
        } else {
            Ok(())
        }
    }

    /// What a snapshot returns: all tasks in order, unless the store is
    /// poisoned.
    pub open spec fn snapshot(self) -> Result<Seq<TaskView>, StoreError> {
        if self.poisoned {
            Err(StoreError::StoreUnavailable)
        } else {
            Ok(self.tasks)
        }
    }

    /// The store after it was given up; its tasks stay as they are.
    pub open spec fn poison(self) -> StoreState {
        StoreState { tasks: self.tasks, poisoned: true }
    }

    /// The store after one call. A snapshot leaves it as it is.
    pub open spec fn apply(self, op: StoreOp) -> StoreState {
        match op {
            StoreOp::Append(task) => self.append(task),
            StoreOp::Snapshot => self,
        }
    }

    /// The store after a run of calls, made one after the other.
    pub open spec fn run(self, ops: Seq<StoreOp>) -> StoreState
        decreases ops.len(),
    {
        if ops.len() == 0 {
            self
        } else {
            self.run(ops.drop_last()).apply(ops.last())
        }
    }
}

/// The tasks that the appends among `ops` hand in, in the order of the calls.
pub open spec fn appended_tasks(ops: Seq<StoreOp>) -> Seq<TaskView>
    decreases ops.len(),
{
    if ops.len() == 0 {
        Seq::empty()
    } else {
        match ops.last() {
            StoreOp::Append(task) => appended_tasks(ops.drop_last()).push(task),
            StoreOp::Snapshot => appended_tasks(ops.drop_last()),
        }
    }
}

/// The tasks of a log in insertion order.
pub struct TaskStore {
    tasks: Vec<Task>,
    poisoned: bool,
}

impl View for TaskStore {
    type V = StoreState;

    closed spec fn view(&self) -> StoreState {
        StoreState { tasks: task_views(self.tasks@), poisoned: self.poisoned }
    }
}

impl TaskStore {
    /// An empty, usable store.
    pub fn new() -> (store: TaskStore)
        ensures
            store@ == StoreState::fresh(),
    {
        let store = TaskStore { tasks: Vec::new(), poisoned: false };
        assert(store@.tasks =~= Seq::<TaskView>::empty());
        store
    }

    /// Gives the store up: from now on every append and snapshot fails.
    pub fn poison(&mut self)
        ensures
            final(self)@ == old(self)@.poison(),
    {
        self.poisoned = true;
    }

    /// Whether the store has been given up.
    pub fn is_poisoned(&self) -> (poisoned: bool)
        ensures
            poisoned == self@.poisoned,
    {
        self.poisoned
    }

    /// How many tasks the store holds.
    pub fn len(&self) -> (n: usize)
        ensures
            n == self@.tasks.len(),
    {
        self.tasks.len()
    }

    /// Appends a task with the timestamp given. On a poisoned store nothing
    /// is appended and the call fails.
    pub fn append_at(&mut self, title: String, content: String, creation: Time) -> (r: Result<
        (),
        StoreError,
    >)
        ensures
            r == old(self)@.access(),
            final(self)@ == old(self)@.append(
                TaskView { title: title@, content: content@, creation },
            ),
    {
        if self.poisoned {
            return Err(StoreError::StoreUnavailable);
        }
        let task = Task::new(title, content, creation);
        self.tasks.push(task);
        assert(self@.tasks =~= old(self)@.tasks.push(task@));
        Ok(())
    }

    /// Appends a task stamped with the current local time. On a poisoned
    /// store nothing is appended, the clock is not read, and the call fails.
    ///
    /// Which instant the task is stamped with is up to the clock; it is a
    /// valid timestamp.
    pub fn append(&mut self, title: String, content: String) -> (r: Result<(), StoreError>)
        ensures
            r == old(self)@.access(),
            final(self)@ == old(self)@.append(
                TaskView {
                    title: title@,
                    content: content@,
                    creation: final(self)@.tasks.last().creation,
                },
            ),
            r is Ok ==> final(self)@.tasks.last().creation.is_valid(),
    {
        if self.poisoned {
            return Err(StoreError::StoreUnavailable);
        }
        let creation = Time::now();
        self.append_at(title, content, creation)
    }

    /// A copy of all tasks, oldest first, that later calls on the store do
    /// not touch. Fails on a poisoned store.
    pub fn snapshot(&self) -> (r: Result<Vec<Task>, StoreError>)
        ensures
            match r {
                Ok(tasks) => self@.snapshot() == Ok::<Seq<TaskView>, StoreError>(
                    task_views(tasks@),
                ),
                Err(e) => self@.snapshot() == Err::<Seq<TaskView>, StoreError>(e),
            },
    {
        if self.poisoned {
            return Err(StoreError::StoreUnavailable);
        }
        let mut copy: Vec<Task> = Vec::new();
        let mut i: usize = 0;
        while i < self.tasks.len()
            invariant
                i <= self.tasks.len(),
                task_views(copy@) == task_views(self.tasks@).take(i as int),
            decreases self.tasks.len() - i,
        {
            let ghost before = task_views(copy@);
            let task = self.tasks[i].clone();
            copy.push(task);
            i = i + 1;
            assert(task_views(copy@) =~= before.push(task@));
            assert(before.push(task@) =~= task_views(self.tasks@).take(i as int));
        }
        assert(task_views(self.tasks@).take(i as int) =~= task_views(self.tasks@));
        Ok(copy)
    }
}

/// A snapshot of a fresh store is empty.
pub proof fn lemma_fresh_snapshot_is_empty()
    ensures
        StoreState::fresh().snapshot() == Ok::<Seq<TaskView>, StoreError>(Seq::empty()),
{
}

/// After an append on a usable store, a snapshot holds exactly one task more
/// than before: the one appended, at the end, behind the earlier tasks in
/// their old order.
pub proof fn lemma_append_then_snapshot(store: StoreState, task: TaskView)
    requires
        !store.poisoned,
    ensures
        store.append(task).snapshot() == Ok::<Seq<TaskView>, StoreError>(store.tasks.push(task)),
        store.append(task).tasks.len() == store.tasks.len() + 1,
        store.append(task).tasks.last() == task,
        store.append(task).tasks.drop_last() == store.tasks,
{
    assert(store.tasks.push(task).drop_last() =~= store.tasks);
}

/// However appends and snapshots follow one another on a usable store, it
/// ends up holding what it held, and behind that the appended tasks in the
/// order of their calls; a closing snapshot returns just that.
pub proof fn lemma_order_preserved(store: StoreState, ops: Seq<StoreOp>)
    requires
        !store.poisoned,
    ensures
        !store.run(ops).poisoned,
        store.run(ops).tasks == store.tasks + appended_tasks(ops),
        store.run(ops).snapshot() == Ok::<Seq<TaskView>, StoreError>(
            store.tasks + appended_tasks(ops),
        ),
    decreases ops.len(),
{
    if ops.len() == 0 {
        assert(store.tasks + appended_tasks(ops) =~= store.tasks);
    } else {
        lemma_order_preserved(store, ops.drop_last());
        let before = store.run(ops.drop_last());
        match ops.last() {
            StoreOp::Append(task) => {
                assert(before.tasks.push(task) =~= store.tasks + appended_tasks(ops));
            },
            StoreOp::Snapshot => {},
        }
    }
}

/// What a snapshot returned stays true of the store: whatever calls follow,
/// the store goes on to hold those tasks, unchanged and in the same places,
/// and anything new only behind them.
pub proof fn lemma_snapshot_stays_prefix(store: StoreState, ops: Seq<StoreOp>)
    ensures
        store.run(ops).tasks.len() >= store.tasks.len(),
        store.run(ops).tasks.take(store.tasks.len() as int) == store.tasks,
    decreases ops.len(),
{
    if ops.len() == 0 {
        assert(store.tasks.take(store.tasks.len() as int) =~= store.tasks);
    } else {
        lemma_snapshot_stays_prefix(store, ops.drop_last());
        let before = store.run(ops.drop_last());
        assert(store.run(ops).tasks.take(store.tasks.len() as int) =~= before.tasks.take(
            store.tasks.len() as int,
        ));
    }
}

/// A poisoned store stays poisoned and keeps its tasks: no call brings it
/// back, none is served, and none changes what it holds.
pub proof fn lemma_poison_is_final(store: StoreState, ops: Seq<StoreOp>)
    requires
        store.poisoned,
    ensures
        store.run(ops) == store,
        store.run(ops).snapshot() == Err::<Seq<TaskView>, StoreError>(
            StoreError::StoreUnavailable,
        ),
        store.run(ops).access() == Err::<(), StoreError>(StoreError::StoreUnavailable),
    decreases ops.len(),
{
    if ops.len() > 0 {
        lemma_poison_is_final(store, ops.drop_last());
    }
}

} // verus!
