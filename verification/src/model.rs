//! The scheduler as a mathematical value, and a tick as a function on it.

use crate::admission::{ordered, slot};
use crate::context::{Status, TurnView};
use crate::draw::Draw;
use crate::job_creator::ArrivalSample;
use crate::job_dispatcher::{JobDispatcher, Levels};
use crate::task;
use crate::task::{records_of, TaskDefinition, TaskRecordView, TaskView};
use crate::QueueLayer;
use vstd::prelude::*;

verus! {

/// Mathematical model of a [`Scheduler`].
pub struct SchedulerView {
    /// The tick that the next `run` plays.
    pub clock: usize,
    /// Promotion happens at the clocks that are multiples of this.
    pub job_sync_period: usize,
    /// Promotion is skipped while this many tasks are resident in the
    /// feedback levels, and moves at most this many.
    pub job_threshold: usize,
    /// Ticks until the next arrival is due.
    pub countdown: usize,
    /// The tasks that wait for promotion, the next to leave first.
    pub admission: Seq<TaskView>,
    /// The three feedback levels.
    pub levels: Levels,
    /// The turn in the running slot and the level that it came from.
    pub running: Option<(TurnView, QueueLayer)>,
    /// The tasks that are done, in the order in which they got there.
    pub done: Seq<TaskView>,
}

/// Where in the scheduler a task is held.
pub enum Stage {
    /// In admission, waiting to be promoted.
    Admission,
    /// At a feedback level or in the running slot.
    Feedback,
    /// Among the tasks that are done.
    Done,
}

/// What holds of a task held at `stage`. One in admission is untouched: it
/// is `Ready`, not stamped and has never been executed. One at a feedback
/// level or in the running slot is stamped and `Ready`. One that is done is
/// stamped and not `Ready`. All are well formed.
pub open spec fn at_stage(task: TaskView, stage: Stage) -> bool {
    &&& task.wf()
    &&& match stage {
        Stage::Admission => task.status == task::Status::Ready && task.schedule_time is None
            && task.progress.len() == 0,
        Stage::Feedback => task.status == task::Status::Ready && task.schedule_time is Some,
        Stage::Done => task.status != task::Status::Ready && task.schedule_time is Some,
    }
}

/// Every task of `tasks` is as a task held at `stage` is.
pub open spec fn all_at(tasks: Seq<TaskView>, stage: Stage) -> bool {
    forall|i: int| 0 <= i < tasks.len() ==> at_stage(#[trigger] tasks[i], stage)
}

/// `task` has kept time with a scheduler whose clock stands at `clock` and
/// whose ticks so far all lie before `limit`: it arrived by `clock`; its
/// stamp, if it has one, lies between its arrival and `clock`; and it was
/// executed at ticks that grow from one to the next and lie between its
/// stamp and `limit`.
pub open spec fn in_time(task: TaskView, clock: int, limit: int) -> bool {
    &&& task.arrival_time <= clock
    &&& task.schedule_time matches Some(stamp) ==> task.arrival_time <= stamp <= clock
    &&& forall|i: int|
        0 <= i < task.progress.len() ==> {
            &&& (#[trigger] task.progress[i]) < limit
            &&& task.schedule_time matches Some(stamp) ==> stamp <= task.progress[i]
        }
    &&& forall|i: int, j: int|
        0 <= i < j < task.progress.len() ==> task.progress[i] < task.progress[j]
}

/// Every task of `tasks` has kept time.
pub open spec fn all_in_time(tasks: Seq<TaskView>, clock: int, limit: int) -> bool {
    forall|i: int| 0 <= i < tasks.len() ==> in_time(#[trigger] tasks[i], clock, limit)
}

/// `tasks`, each stamped as promoted at `time`.
pub open spec fn promoted(tasks: Seq<TaskView>, time: usize) -> Seq<TaskView> {
    tasks.map_values(|task: TaskView| task.scheduled(time))
}

impl SchedulerView {
    /// A scheduler at clock zero with nothing in it.
    pub open spec fn new(
        job_sync_period: usize,
        job_threshold: usize,
        rr_t1: usize,
        rr_t2: usize,
    ) -> SchedulerView {
        SchedulerView {
            clock: 0,
            job_sync_period,
            job_threshold,
            countdown: 0,
            admission: Seq::empty(),
            levels: Levels {
                q1: Seq::empty(),
                quantum1: rr_t1,
                q2: Seq::empty(),
                quantum2: rr_t2,
                q3: Seq::empty(),
            },
            running: None,
            done: Seq::empty(),
        }
    }

    /// The invariant of a scheduler: the sync period is positive, admission
    /// stands in leaving order, every task is as its stage asks, and a turn
    /// that came from the last level has no time slice.
    pub open spec fn wf(self) -> bool {
        &&& self.job_sync_period > 0
        &&& ordered(self.admission)
        &&& all_at(self.admission, Stage::Admission)
        &&& all_at(self.levels.q1, Stage::Feedback)
        &&& all_at(self.levels.q2, Stage::Feedback)
        &&& all_at(self.levels.q3, Stage::Feedback)
        &&& all_at(self.done, Stage::Done)
        &&& self.running matches Some((turn, layer)) ==> at_stage(turn.task, Stage::Feedback)
            && (layer == QueueLayer::L3 ==> turn.budget is None)
    }

    /// Every task in the scheduler has kept time with the clock, its ticks
    /// lying before `limit`.
    pub open spec fn in_time(self, limit: int) -> bool {
        &&& all_in_time(self.admission, self.clock as int, limit)
        &&& all_in_time(self.levels.q1, self.clock as int, limit)
        &&& all_in_time(self.levels.q2, self.clock as int, limit)
        &&& all_in_time(self.levels.q3, self.clock as int, limit)
        &&& all_in_time(self.done, self.clock as int, limit)
        &&& self.running matches Some((turn, _)) ==> in_time(turn.task, self.clock as int, limit)
    }

    /// Every task in the scheduler has kept time with the clock: none has
    /// arrived, been promoted or been executed at a tick that is yet to come,
    /// none was executed at the tick that is about to be played, and the
    /// ticks at which a task was executed grow from one to the next.
    ///
    /// This holds between the ticks of a scheduler that is driven by `run`
    /// and `submit` alone.
    pub open spec fn timely(self) -> bool {
        self.in_time(self.clock as int)
    }

    /// The number of tasks anywhere in the scheduler.
    pub open spec fn population(self) -> nat {
        self.admission.len() + self.levels.resident() + self.done.len() + if self.running
            is Some {
            1nat
        } else {
            0nat
        }
    }

    /// The task that `def` becomes when it is submitted now.
    pub open spec fn admitted(self, def: TaskDefinition) -> TaskView {
        TaskView::new(def.exec_time, def.priority, self.clock, def.timeout)
    }

    /// After `def` was submitted: its task, stamped with the clock as its
    /// arrival, has joined admission at its slot.
    pub open spec fn submit(self, def: TaskDefinition) -> SchedulerView {
        let task = self.admitted(def);
        SchedulerView { admission: self.admission.insert(slot(self.admission, task), task), ..self }
    }

    /// After the job creator's tick: a due arrival restarts the countdown
    /// from the sample's interval and submits the sample's task; otherwise
    /// the countdown goes down by one.
    pub open spec fn poll(self, sample: ArrivalSample) -> SchedulerView {
        if self.countdown == 0 {
            (SchedulerView { countdown: sample.interval, ..self }).submit(sample.definition())
        } else {
            SchedulerView { countdown: (self.countdown - 1) as usize, ..self }
        }
    }

    /// The clock is a multiple of the sync period.
    pub open spec fn sync_due(self) -> bool {
        self.clock as int % self.job_sync_period as int == 0
    }

    /// The number of tasks that a promotion moves: none while the feedback
    /// levels hold `job_threshold` tasks or more, else `job_threshold` of
    /// them, or all of admission where that is fewer.
    pub open spec fn quota(self) -> nat {
        if self.levels.resident() >= self.job_threshold {
            0
        } else if self.admission.len() <= self.job_threshold {
            self.admission.len()
        } else {
            self.job_threshold as nat
        }
    }

    /// After a promotion: the first `quota()` tasks of admission stand at
    /// the end of L1 in the order in which they left, stamped with the clock.
    pub open spec fn sync_jobs(self) -> SchedulerView {
        let moved = self.quota() as int;
        SchedulerView {
            admission: self.admission.skip(moved),
            levels: Levels {
                q1: self.levels.q1 + promoted(self.admission.take(moved), self.clock),
                ..self.levels
            },
            ..self
        }
    }

    /// After the dispatch step of policy `D`: a free running slot is filled
    /// with what the policy dispatches; an occupied one is left alone.
    pub open spec fn dispatch<D: JobDispatcher>(self, draw: Draw) -> SchedulerView {
        if self.running is Some {
            self
        } else {
            let choice = D::select(
                draw,
                self.levels.q1.len(),
                self.levels.q2.len(),
                self.levels.q3.len(),
            );
            SchedulerView {
                running: self.levels.dispatched(choice),
                levels: self.levels.after_dispatch(choice),
                ..self
            }
        }
    }

    /// After the running turn, if there is one, had its tick. A turn that
    /// reports `Ready` keeps the slot. One whose slice is used up gives its
    /// task to the level below the one it came from. One that reports
    /// `Finished` gives its task to the tasks that are done.
    pub open spec fn execute(self) -> SchedulerView {
        match self.running {
            None => self,
            Some((turn, layer)) => {
                let after = turn.exec(self.clock);
                match turn.signal(self.clock) {
                    Status::Ready => SchedulerView { running: Some((after, layer)), ..self },
                    Status::TimeOut => SchedulerView {
                        running: None,
                        levels: match layer {
                            QueueLayer::L1 => self.levels.with_pushed(QueueLayer::L2, after.task),
                            _ => self.levels.with_pushed(QueueLayer::L3, after.task),
                        },
                        ..self
                    },
                    Status::Finished => SchedulerView {
                        running: None,
                        done: self.done.push(after.task),
                        ..self
                    },
                }
            },
        }
    }

    /// After the promotion step of a tick: a promotion where one is due.
    pub open spec fn sync(self) -> SchedulerView {
        if self.sync_due() {
            self.sync_jobs()
        } else {
            self
        }
    }

    /// After one whole tick under policy `D`: arrival, promotion, dispatch,
    /// execution, and the clock moved on by one.
    pub open spec fn step<D: JobDispatcher>(
        self,
        sample: ArrivalSample,
        draw: Draw,
    ) -> SchedulerView {
        let played = self.poll(sample).sync().dispatch::<D>(draw).execute();
        SchedulerView { clock: (played.clock + 1) as usize, ..played }
    }

    /// What an export yields: the records of the tasks that are done, then
    /// of those that wait at L1, L2 and L3, then of those in admission. The
    /// task in the running slot is not among them.
    pub open spec fn records(self) -> Seq<TaskRecordView> {
        records_of(self.done) + records_of(self.levels.q1) + records_of(self.levels.q2)
            + records_of(self.levels.q3) + records_of(self.admission)
    }
}

} // verus!
