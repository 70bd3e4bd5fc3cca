//! The admission queue: arrived tasks in the order in which they are promoted.

use crate::task::{
    all_wf, export_tasks, record_views, records_of, task_views, Task, TaskRecord, TaskView,
};
use vstd::prelude::*;

verus! {

/// No task of `tasks` is outranked by a later one: the tasks stand in the
/// order in which they are to leave.
pub open spec fn ordered(tasks: Seq<TaskView>) -> bool {
    forall|i: int, j: int| 0 <= i < j < tasks.len() ==> !tasks[j].outranks(tasks[i])
}

/// The place at which `task` joins `tasks`: directly behind the last task
/// that it does not outrank, and at the front where it outranks them all.
pub open spec fn slot(tasks: Seq<TaskView>, task: TaskView) -> int
    decreases tasks.len(),
{
    if tasks.len() == 0 {
        0
    } else if task.outranks(tasks.last()) {
        slot(tasks.drop_last(), task)
    } else {
        tasks.len() as int
    }
}

/// `slot` is the one place that has only outranked tasks behind it and a
/// task that is not outranked directly before it.
pub proof fn lemma_slot(tasks: Seq<TaskView>, task: TaskView)
    ensures
        0 <= slot(tasks, task) <= tasks.len(),
        forall|j: int| slot(tasks, task) <= j < tasks.len() ==> task.outranks(#[trigger] tasks[j]),
        slot(tasks, task) > 0 ==> !task.outranks(tasks[slot(tasks, task) - 1]),
    decreases tasks.len(),
{
    if tasks.len() > 0 && task.outranks(tasks.last()) {
        let front = tasks.drop_last();
        lemma_slot(front, task);
        assert forall|j: int| slot(tasks, task) <= j < tasks.len() implies task.outranks(
            #[trigger] tasks[j],
        ) by {
            if j < front.len() {
                assert(front[j] == tasks[j]);
            }
        }
    }
}

/// Joining at `slot` keeps the tasks in the order in which they are to
/// leave, and puts the new task behind every task of its own rank.
pub proof fn lemma_insert_ordered(tasks: Seq<TaskView>, task: TaskView)
    requires
        ordered(tasks),
    ensures
        ordered(tasks.insert(slot(tasks, task), task)),
        forall|i: int| 0 <= i < slot(tasks, task) ==> !task.outranks(#[trigger] tasks[i]),
{
    lemma_slot(tasks, task);
    let k = slot(tasks, task);
    assert forall|i: int| 0 <= i < k implies !task.outranks(#[trigger] tasks[i]) by {
        if i < k - 1 {
            assert(!tasks[k - 1].outranks(tasks[i]));
        }
    }
    let joined = tasks.insert(k, task);
    assert forall|i: int, j: int| 0 <= i < j < joined.len() implies !joined[j].outranks(
        joined[i],
    ) by {
        if j < k {
            assert(joined[i] == tasks[i] && joined[j] == tasks[j]);
        } else if j == k {
            assert(joined[i] == tasks[i]);
        } else if i < k {
            assert(joined[i] == tasks[i] && joined[j] == tasks[j - 1]);
        } else if i == k {
            assert(joined[j] == tasks[j - 1]);
        } else {
            assert(joined[i] == tasks[i - 1] && joined[j] == tasks[j - 1]);
        }
    }
}

/// The tasks that have arrived and wait to be promoted, kept in the order in
/// which they leave: by priority, the highest first, and within a priority
/// by arrival, the earliest first. Tasks of one priority and arrival leave
/// in the order in which they came.
#[derive(Debug)]
pub struct AdmissionQueue {
    tasks: Vec<Task>,
}

impl View for AdmissionQueue {
    type V = Seq<TaskView>;

    closed spec fn view(&self) -> Seq<TaskView> {
        task_views(self.tasks@)
    }
}

impl AdmissionQueue {
    pub open spec fn wf(&self) -> bool {
        ordered(self@)
    }

    pub fn new() -> (queue: Self)
        ensures
            queue@ == Seq::<TaskView>::empty(),
            queue.wf(),
    {
        let queue = Self { tasks: Vec::new() };
        assert(queue@ =~= Seq::<TaskView>::empty());
        queue
    }

    pub fn len(&self) -> (n: usize)
        ensures
            n == self@.len(),
    {
        self.tasks.len()
    }

    pub fn is_empty(&self) -> (b: bool)
        ensures
            b == (self@.len() == 0),
    {
        self.tasks.len() == 0
    }

    /// The waiting task at place `i`, counted from the one that leaves next.
    pub fn get(&self, i: usize) -> (task: &Task)
        requires
            i < self@.len(),
        ensures
            task@ == self@[i as int],
    {
        &self.tasks[i]
    }

    /// Appends the record of each waiting task to `records`, the next to
    /// leave first.
    pub fn export_into(&self, records: &mut Vec<TaskRecord>)
        requires
            all_wf(self@),
        ensures
            record_views(final(records)@) == record_views(old(records)@) + records_of(self@),
    {
        export_tasks(&self.tasks, records);
    }

    /// Lets `task` join at its `slot`.
    pub fn push(&mut self, task: Task)
        requires
            old(self).wf(),
        ensures
            final(self)@ == old(self)@.insert(slot(old(self)@, task@), task@),
            final(self).wf(),
    {
        let ghost waiting = self@;
        let mut i = self.tasks.len();
        assert(waiting.take(i as int) =~= waiting);
        while i > 0 && task.outranks(&self.tasks[i - 1])
            invariant
                i <= self.tasks.len(),
                waiting == task_views(self.tasks@),
                slot(waiting, task@) == slot(waiting.take(i as int), task@),
            decreases i,
        {
            assert(waiting.take(i as int).drop_last() == waiting.take(i - 1));
            i = i - 1;
        }
        proof {
            lemma_insert_ordered(waiting, task@);
            assert(waiting.take(i as int).len() == i);
            if i > 0 {
                assert(waiting.take(i as int).last() == waiting[i - 1]);
            }
        }
        self.tasks.insert(i, task);
        assert(self@ =~= waiting.insert(i as int, task@));
    }

    /// Takes out the task that leaves next: one that no waiting task
    /// outranks. `None`, and no change, where nothing waits.
    pub fn pop(&mut self) -> (task: Option<Task>)
        requires
            old(self).wf(),
        ensures
            final(self).wf(),
            old(self)@.len() == 0 ==> task is None && final(self)@ == old(self)@,
            old(self)@.len() > 0 ==> task is Some && task->0@ == old(self)@[0] && final(self)@
                == old(self)@.skip(1),
            task matches Some(t) ==> forall|i: int|
                0 <= i < old(self)@.len() ==> !(#[trigger] old(self)@[i]).outranks(t@),
    {
        if self.tasks.len() == 0 {
            return None;
        }
        let task = self.tasks.remove(0);
        assert(self@ =~= old(self)@.skip(1));
        assert forall|i: int| 0 <= i < old(self)@.len() implies !(#[trigger] old(
            self,
        )@[i]).outranks(task@) by {
            if i > 0 {
                assert(!old(self)@[i].outranks(old(self)@[0]));
            }
        }
        Some(task)
    }
}

} // verus!
