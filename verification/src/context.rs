//! Dispatch turns: one task at the processor, with or without a time slice.

use crate::task;
use crate::task::{Task, TaskView};
use vstd::prelude::*;

verus! {

/// What one tick of a dispatch turn reports.
///
/// `TimeOut` means that the turn's time slice is used up while the task still
/// has work to do. It is not the task's own `task::Status::TimeOut`: a task
/// abandoned at its deadline ends its turn with `Finished`.
#[derive(Debug, Clone, Copy, PartialEq, Eq, Structural)]
pub enum Status {
    Ready,
    TimeOut,
    Finished,
}

/// Mathematical model of a dispatch turn: the task that holds the turn and
/// the ticks that the turn may still use, `None` where it may run on until
/// the task is done.
pub struct TurnView {
    pub task: TaskView,
    pub budget: Option<usize>,
}

impl TurnView {
    /// What a turn reports after its task was given a tick.
    pub open spec fn report(task: TaskView) -> Status {
        if task.status == task::Status::Ready {
            Status::Ready
        } else {
            Status::Finished
        }
    }

    /// The turn's time slice is used up.
    pub open spec fn exhausted(self) -> bool {
        self.budget == Some(0usize)
    }

    /// The turn after one tick at `clock`.
    ///
    /// An exhausted turn leaves its task alone. Any other turn executes the
    /// task once, and a bounded one pays a tick of its slice for that.
    pub open spec fn exec(self, clock: usize) -> TurnView {
        if self.exhausted() {
            self
        } else {
            TurnView {
                task: self.task.exec(clock),
                budget: match self.budget {
                    Some(left) => Some((left - 1) as usize),
                    None => None,
                },
            }
        }
    }

    /// What the tick at `clock` reports.
    ///
    /// An exhausted turn reports `TimeOut` for a task that is still `Ready`
    /// and `Finished` for any other; a turn that executed its task reports
    /// `Ready` while the task is `Ready` and `Finished` once it is not.
    pub open spec fn signal(self, clock: usize) -> Status {
        if self.exhausted() {
            if self.task.status == task::Status::Ready {
                Status::TimeOut
            } else {
                Status::Finished
            }
        } else {
            Self::report(self.task.exec(clock))
        }
    }
}

/// A turn without a time slice never reports `TimeOut`.
pub proof fn lemma_unbounded_never_times_out(turn: TurnView, clock: usize)
    requires
        turn.budget is None,
    ensures
        turn.signal(clock) != Status::TimeOut,
        turn.exec(clock).budget is None,
{
}

/// A tick leaves the task of a turn well formed and never adds to its work
/// or to the turn's slice.
pub proof fn lemma_turn_exec_wf(turn: TurnView, clock: usize)
    requires
        turn.task.wf(),
    ensures
        turn.exec(clock).task.wf(),
        turn.exec(clock).task.remaining <= turn.task.remaining,
        turn.budget is Some ==> turn.exec(clock).budget is Some && turn.exec(clock).budget->0
            <= turn.budget->0,
{
}

/// A bounded turn pays for every tick that its task records: what the task
/// records in a tick, the slice loses. So a turn out of a round-robin queue
/// records no more ticks than the queue's time slice.
pub proof fn lemma_slice_pays_for_ticks(turn: TurnView, clock: usize)
    requires
        turn.budget is Some,
    ensures
        turn.exec(clock).budget is Some,
        turn.exec(clock).task.progress.len() + turn.exec(clock).budget->0
            <= turn.task.progress.len() + turn.budget->0,
{
}

/// One dispatch turn of one task.
pub trait Context: Sized {
    /// The turn as a value.
    spec fn turn(&self) -> TurnView;

    /// Runs the turn for the tick at `clock`.
    fn exec(&mut self, clock: usize) -> (status: Status)
        ensures
            final(self).turn() == old(self).turn().exec(clock),
            status == old(self).turn().signal(clock),
    ;

    /// Ends the turn and hands the task back.
    fn take(self) -> (task: Task)
        ensures
            task@ == self.turn().task,
    ;
}

/// A turn bounded by a time slice.
#[derive(Debug)]
pub struct DeadlineContext {
    deadline: usize,
    task: Task,
}

impl DeadlineContext {
    pub fn new(task: Task, deadline: usize) -> (ctx: Self)
        ensures
            ctx.turn() == (TurnView { task: task@, budget: Some(deadline) }),
    {
        Self { deadline, task }
    }

    /// Ticks of the slice that are left.
    pub fn deadline(&self) -> (left: usize)
        ensures
            Some(left) == self.turn().budget,
    {
        self.deadline
    }

    pub fn task(&self) -> (task: &Task)
        ensures
            task@ == self.turn().task,
    {
        &self.task
    }
}

impl Context for DeadlineContext {
    closed spec fn turn(&self) -> TurnView {
        TurnView { task: self.task@, budget: Some(self.deadline) }
    }

    fn exec(&mut self, clock: usize) -> (status: Status) {
        if self.deadline == 0 {
            return match self.task.status() {
                task::Status::Ready => Status::TimeOut,
                _ => Status::Finished,
            };
        }
        self.task.exec(clock);
        self.deadline = self.deadline - 1;
        match self.task.status() {
            task::Status::Ready => Status::Ready,
            _ => Status::Finished,
        }
    }

    fn take(self) -> (task: Task) {
        self.task
    }
}

/// A turn that runs until its task is done.
#[derive(Debug)]
pub struct DefaultContext {
    task: Task,
}

impl DefaultContext {
    pub fn new(task: Task) -> (ctx: Self)
        ensures
            ctx.turn() == (TurnView { task: task@, budget: None }),
    {
        Self { task }
    }

    pub fn task(&self) -> (task: &Task)
        ensures
            task@ == self.turn().task,
    {
        &self.task
    }
}

impl Context for DefaultContext {
    closed spec fn turn(&self) -> TurnView {
        TurnView { task: self.task@, budget: None }
    }

    fn exec(&mut self, clock: usize) -> (status: Status) {
        self.task.exec(clock);
        match self.task.status() {
            task::Status::Ready => Status::Ready,
            _ => Status::Finished,
        }
    }

    fn take(self) -> (task: Task) {
        self.task
    }
}

/// The turn that occupies the running slot, of either kind.
#[derive(Debug)]
pub enum Turn {
    Bounded(DeadlineContext),
    Unbounded(DefaultContext),
}

impl Turn {
    pub fn task(&self) -> (task: &Task)
        ensures
            task@ == self.turn().task,
    {
        match self {
            Turn::Bounded(ctx) => ctx.task(),
            Turn::Unbounded(ctx) => ctx.task(),
        }
    }
}

impl Context for Turn {
    open spec fn turn(&self) -> TurnView {
        match self {
            Turn::Bounded(ctx) => ctx.turn(),
            Turn::Unbounded(ctx) => ctx.turn(),
        }
    }

    fn exec(&mut self, clock: usize) -> (status: Status) {
        match self {
            Turn::Bounded(ctx) => ctx.exec(clock),
            Turn::Unbounded(ctx) => ctx.exec(clock),
        }
    }

    fn take(self) -> (task: Task) {
        match self {
            Turn::Bounded(ctx) => ctx.take(),
            Turn::Unbounded(ctx) => ctx.take(),
        }
    }
}

impl Task {
    /// Starts a turn of `deadline` ticks for the task.
    pub fn with_deadline(self, deadline: usize) -> (ctx: DeadlineContext)
        ensures
            ctx.turn() == (TurnView { task: self@, budget: Some(deadline) }),
    {
        DeadlineContext::new(self, deadline)
    }

    /// Starts a turn for the task that lasts until it is done.
    pub fn with_context(self) -> (ctx: DefaultContext)
        ensures
            ctx.turn() == (TurnView { task: self@, budget: None }),
    {
        DefaultContext::new(self)
    }
}

} // verus!
