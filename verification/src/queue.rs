//! The feedback levels: a round-robin queue and a run-to-completion queue.

use crate::context::{Context, DeadlineContext, DefaultContext, TurnView};
use crate::task::{
    all_wf, export_tasks, record_views, records_of, task_views, Task, TaskRecord, TaskView,
};
use std::collections::VecDeque;
use vstd::prelude::*;

verus! {

/// A feedback level: tasks wait in it and leave it one by one, each wrapped
/// in the turn that the level's discipline grants.
pub trait TaskQueue {
    type Ctx: Context;

    /// The waiting tasks, in the order in which they were pushed.
    spec fn tasks(&self) -> Seq<TaskView>;

    /// The time slice of a turn out of this queue, `None` where turns are
    /// not bounded.
    spec fn quantum(&self) -> Option<usize>;

    /// The place in `tasks()` of the task that `pop` takes next, where there
    /// is one.
    spec fn head(&self) -> int;

    fn push(&mut self, task: Task)
        ensures
            final(self).tasks() == old(self).tasks().push(task@),
            final(self).quantum() == old(self).quantum(),
    ;

    /// Takes the task at `head()` out and starts its turn; `None`, and no
    /// change, where nothing waits.
    fn pop(&mut self) -> (ctx: Option<Self::Ctx>)
        ensures
            final(self).quantum() == old(self).quantum(),
            old(self).tasks().len() == 0 ==> ctx is None && final(self).tasks() == old(
                self,
            ).tasks(),
            old(self).tasks().len() > 0 ==> {
                &&& 0 <= old(self).head() < old(self).tasks().len()
                &&& ctx is Some
                &&& ctx->0.turn() == (TurnView {
                    task: old(self).tasks()[old(self).head()],
                    budget: old(self).quantum(),
                })
                &&& final(self).tasks() == old(self).tasks().remove(old(self).head())
            },
    ;

    fn len(&self) -> (n: usize)
        ensures
            n == self.tasks().len(),
    ;

    fn is_empty(&self) -> (b: bool)
        ensures
            b == (self.tasks().len() == 0),
    {
        self.len() == 0
    }
}

/// Round-robin level: first in, first out, each turn bounded by the queue's
/// time slice.
#[derive(Debug)]
pub struct RRQueue {
    timeslice: usize,
    tasks: VecDeque<Task>,
}

impl RRQueue {
    pub fn new(timeslice: usize) -> (queue: Self)
        ensures
            queue.tasks() == Seq::<TaskView>::empty(),
            queue.slice() == timeslice,
    {
        let queue = Self { timeslice, tasks: VecDeque::new() };
        assert(queue.tasks() =~= Seq::<TaskView>::empty());
        queue
    }

    /// The time slice of every turn out of this queue.
    pub closed spec fn slice(&self) -> usize {
        self.timeslice
    }

    pub fn timeslice(&self) -> (slice: usize)
        ensures
            slice == self.slice(),
    {
        self.timeslice
    }

    /// The waiting task at place `i`, counted from the head.
    pub fn get(&self, i: usize) -> (task: &Task)
        requires
            i < self.tasks().len(),
        ensures
            task@ == self.tasks()[i as int],
    {
        &self.tasks[i]
    }

    /// Appends the record of each waiting task to `records`, from the head
    /// on.
    pub fn export_into(&self, records: &mut Vec<TaskRecord>)
        requires
            all_wf(self.tasks()),
        ensures
            record_views(final(records)@) == record_views(old(records)@) + records_of(
                self.tasks(),
            ),
    {
        let ghost before = record_views(records@);
        let ghost views = self.tasks();
        let mut i: usize = 0;
        while i < self.tasks.len()
            invariant
                i <= self.tasks.len(),
                views == self.tasks(),
                all_wf(views),
                record_views(records@) == before + records_of(views.take(i as int)),
            decreases self.tasks.len() - i,
        {
            let ghost filled = records@;
            assert(views[i as int].wf());
            let record = self.tasks[i].export();
            records.push(record);
            proof {
                assert(views.take(i + 1) =~= views.take(i as int).push(views[i as int]));
                assert(record_views(records@) =~= record_views(filled).push(record@));
                assert(records_of(views.take(i + 1)) =~= records_of(views.take(i as int)).push(
                    views[i as int].record(),
                ));
            }
            i = i + 1;
        }
        assert(views.take(i as int) == views);
    }
}

impl TaskQueue for RRQueue {
    type Ctx = DeadlineContext;

    closed spec fn tasks(&self) -> Seq<TaskView> {
        task_views(self.tasks@)
    }

    open spec fn quantum(&self) -> Option<usize> {
        Some(self.slice())
    }

    open spec fn head(&self) -> int {
        0
    }

    fn push(&mut self, task: Task) {
        self.tasks.push_back(task);
        assert(self.tasks() =~= old(self).tasks().push(task@));
    }

    fn pop(&mut self) -> (ctx: Option<DeadlineContext>) {
        match self.tasks.pop_front() {
            Some(task) => {
                assert(self.tasks() =~= old(self).tasks().remove(0));
                Some(task.with_deadline(self.timeslice))
            },
            None => None,
        }
    }

    fn len(&self) -> (n: usize) {
        self.tasks.len()
    }
}

/// Run-to-completion level: the task pushed last leaves first, and its turn
/// is not bounded.
#[derive(Debug)]
pub struct Fifo {
    tasks: Vec<Task>,
}

impl Fifo {
    pub fn new() -> (queue: Self)
        ensures
            queue.tasks() == Seq::<TaskView>::empty(),
    {
        let queue = Self { tasks: Vec::new() };
        assert(queue.tasks() =~= Seq::<TaskView>::empty());
        queue
    }

    /// The waiting task at place `i`, in the order pushed.
    pub fn get(&self, i: usize) -> (task: &Task)
        requires
            i < self.tasks().len(),
        ensures
            task@ == self.tasks()[i as int],
    {
        &self.tasks[i]
    }

    /// Appends the record of each waiting task to `records`, in the order
    /// pushed.
    pub fn export_into(&self, records: &mut Vec<TaskRecord>)
        requires
            all_wf(self.tasks()),
        ensures
            record_views(final(records)@) == record_views(old(records)@) + records_of(
                self.tasks(),
            ),
    {
        export_tasks(&self.tasks, records);
    }
}

impl Default for Fifo {
    fn default() -> (queue: Self)
        ensures
            queue.tasks() == Seq::<TaskView>::empty(),
    {
        Fifo::new()
    }
}

impl TaskQueue for Fifo {
    type Ctx = DefaultContext;

    closed spec fn tasks(&self) -> Seq<TaskView> {
        task_views(self.tasks@)
    }

    open spec fn quantum(&self) -> Option<usize> {
        None
    }

    open spec fn head(&self) -> int {
        self.tasks().len() - 1
    }

    fn push(&mut self, task: Task) {
        self.tasks.push(task);
        assert(self.tasks() =~= old(self).tasks().push(task@));
    }

    fn pop(&mut self) -> (ctx: Option<DefaultContext>) {
        match self.tasks.pop() {
            Some(task) => {
                assert(self.tasks() =~= old(self).tasks().remove(old(self).tasks().len() - 1));
                Some(task.with_context())
            },
            None => None,
        }
    }

    fn len(&self) -> (n: usize) {
        self.tasks.len()
    }
}

} // verus!
