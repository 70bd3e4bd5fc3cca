//! The pacing of arrivals.

use crate::draw::Draw;
use crate::task::{Priority, TaskDefinition};
use vstd::prelude::*;

verus! {

/// The values drawn for one arrival: the ticks until the arrival after it,
/// the service time and the timeout of the new task, and the draw that
/// settles its priority.
#[derive(Debug, Clone, Copy, PartialEq, Eq, Structural)]
pub struct ArrivalSample {
    pub interval: usize,
    pub exec_time: usize,
    pub timeout: Option<usize>,
    pub priority: Draw,
}

impl ArrivalSample {
    /// The task that the sample describes.
    pub open spec fn definition(self) -> TaskDefinition {
        TaskDefinition {
            exec_time: self.exec_time,
            priority: Priority::of_draw(self.priority),
            timeout: self.timeout,
        }
    }
}

/// Paces the arrival of new tasks: counts the ticks down to the next
/// arrival, and turns the sample of a due arrival into a task definition.
#[derive(Debug)]
pub struct JobCreator {
    next_dispatch: usize,
}

impl JobCreator {
    /// Ticks until the next arrival is due.
    pub closed spec fn countdown(&self) -> usize {
        self.next_dispatch
    }

    /// A creator whose first arrival is due at once.
    pub fn new() -> (creator: Self)
        ensures
            creator.countdown() == 0,
    {
        Self { next_dispatch: 0 }
    }

    /// Whether the next `poll` emits a task.
    pub fn is_due(&self) -> (due: bool)
        ensures
            due == (self.countdown() == 0),
    {
        self.next_dispatch == 0
    }

    pub fn next_dispatch(&self) -> (ticks: usize)
        ensures
            ticks == self.countdown(),
    {
        self.next_dispatch
    }

    /// One tick of the creator. Where an arrival is due, the countdown starts
    /// anew from the sample's interval and the sample's task is emitted;
    /// where none is, the countdown goes down by one, the sample is not
    /// looked at and nothing is emitted.
    pub fn poll(&mut self, sample: ArrivalSample) -> (def: Option<TaskDefinition>)
        ensures
            old(self).countdown() == 0 ==> final(self).countdown() == sample.interval && def
                == Some(sample.definition()),
            old(self).countdown() > 0 ==> final(self).countdown() == old(self).countdown() - 1
                && def is None,
    {
        if self.next_dispatch == 0 {
            self.next_dispatch = sample.interval;
            return Some(
                TaskDefinition::new(
                    sample.exec_time,
                    Priority::from_draw(sample.priority),
                    sample.timeout,
                ),
            );
        }
        self.next_dispatch = self.next_dispatch - 1;
        None
    }
}

} // verus!
