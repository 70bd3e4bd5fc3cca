//! The scheduler itself: the queues, the running slot and the tick.

use crate::admission::AdmissionQueue;
use crate::context::{Context, Status, Turn};
use crate::draw::Draw;
use crate::job_creator::{ArrivalSample, JobCreator};
use crate::job_dispatcher::{
    levels_of, slot_view, DefaultDispatcher, JobDispatcher, Levels, WeightedDispatcher,
};
use crate::laws::{
    lemma_all_at_wf, lemma_dispatch_in_time, lemma_dispatch_wf, lemma_execute_wf,
    lemma_step_timely, lemma_submit_in_time, lemma_submit_wf, lemma_sync_jobs_in_time,
    lemma_sync_jobs_wf,
};
use crate::model::{promoted, SchedulerView, Stage};
use crate::queue::{Fifo, RRQueue, TaskQueue};
use crate::task::{
    export_tasks, record_views, task_views, Task, TaskDefinition, TaskRecord, TaskRecordView,
    TaskView,
};
use crate::QueueLayer;
use vstd::pervasive::unreached;
use vstd::prelude::*;

verus! {

/// The orchestrator: owns the clock, the queues, the running slot and the
/// tasks that are done, and plays one tick per call of `run`.
pub struct Scheduler<D: JobDispatcher> {
    clock: usize,
    job_sync_period: usize,
    job_threshold: usize,
    job_creator: JobCreator,
    priority_queue: AdmissionQueue,
    q1: RRQueue,
    q2: RRQueue,
    q3: Fifo,
    done: Vec<Task>,
    running_task: Option<(Turn, QueueLayer)>,
    dispatcher: D,
}

impl<D: JobDispatcher> View for Scheduler<D> {
    type V = SchedulerView;

    closed spec fn view(&self) -> SchedulerView {
        SchedulerView {
            clock: self.clock,
            job_sync_period: self.job_sync_period,
            job_threshold: self.job_threshold,
            countdown: self.job_creator.countdown(),
            admission: self.priority_queue@,
            levels: levels_of(self.q1, self.q2, self.q3),
            running: slot_view(self.running_task),
            done: task_views(self.done@),
        }
    }
}

impl Scheduler<DefaultDispatcher> {
    /// A scheduler at clock zero with nothing in it, under the default
    /// dispatch policy. Promotion is due whenever the clock is a multiple of
    /// `job_sync_period`, which therefore is not zero.
    pub fn new(
        job_sync_period: usize,
        job_threshold: usize,
        rr_t1: usize,
        rr_t2: usize,
    ) -> (scheduler: Self)
        requires
            job_sync_period > 0,
        ensures
            scheduler@ == SchedulerView::new(job_sync_period, job_threshold, rr_t1, rr_t2),
            scheduler@.wf(),
            scheduler@.timely(),
    {
        let scheduler = Self {
            clock: 0,
            priority_queue: AdmissionQueue::new(),
            job_sync_period,
            q1: RRQueue::new(rr_t1),
            q2: RRQueue::new(rr_t2),
            q3: Fifo::new(),
            done: Vec::new(),
            job_threshold,
            job_creator: JobCreator::new(),
            running_task: None,
            dispatcher: DefaultDispatcher {  },
        };
        assert(task_views(scheduler.done@) =~= Seq::<TaskView>::empty());
        scheduler
    }

    /// The same scheduler under the weighted dispatch policy.
    pub fn with_weighted_dispatcher(self) -> (scheduler: Scheduler<WeightedDispatcher>)
        ensures
            scheduler@ == self@,
    {
        Scheduler {
            clock: self.clock,
            priority_queue: self.priority_queue,
            job_sync_period: self.job_sync_period,
            q1: self.q1,
            q2: self.q2,
            q3: self.q3,
            done: self.done,
            job_threshold: self.job_threshold,
            job_creator: self.job_creator,
            running_task: self.running_task,
            dispatcher: WeightedDispatcher {  },
        }
    }
}

impl<D: JobDispatcher> Scheduler<D> {
    pub fn clock(&self) -> (clock: usize)
        ensures
            clock == self@.clock,
    {
        self.clock
    }

    pub fn job_sync_period(&self) -> (period: usize)
        ensures
            period == self@.job_sync_period,
    {
        self.job_sync_period
    }

    pub fn job_threshold(&self) -> (threshold: usize)
        ensures
            threshold == self@.job_threshold,
    {
        self.job_threshold
    }

    /// Whether an arrival is due at the next tick, so that the sample handed
    /// to `run` is used.
    pub fn arrival_due(&self) -> (due: bool)
        ensures
            due == (self@.countdown == 0),
    {
        self.job_creator.is_due()
    }

    /// Submits `def` without asking the job creator: its task joins
    /// admission with the current clock as its arrival.
    pub fn submit(&mut self, def: TaskDefinition)
        requires
            old(self)@.wf(),
        ensures
            final(self)@ == old(self)@.submit(def),
            final(self)@.wf(),
            old(self)@.timely() ==> final(self)@.timely(),
    {
        proof {
            lemma_submit_wf(self@, def);
            if self@.timely() {
                lemma_submit_in_time(self@, def, self@.clock as int);
            }
        }
        self.priority_queue.push(Task::new(def.exec_time, def.priority, self.clock, def.timeout));
    }

    /// The queue of the tasks that wait for promotion.
    pub fn admission(&self) -> (queue: &AdmissionQueue)
        ensures
            queue@ == self@.admission,
    {
        &self.priority_queue
    }

    /// The first feedback level.
    pub fn q1(&self) -> (queue: &RRQueue)
        ensures
            queue.tasks() == self@.levels.q1,
            queue.slice() == self@.levels.quantum1,
    {
        &self.q1
    }

    /// The second feedback level.
    pub fn q2(&self) -> (queue: &RRQueue)
        ensures
            queue.tasks() == self@.levels.q2,
            queue.slice() == self@.levels.quantum2,
    {
        &self.q2
    }

    /// The last feedback level.
    pub fn q3(&self) -> (queue: &Fifo)
        ensures
            queue.tasks() == self@.levels.q3,
    {
        &self.q3
    }

    /// The tasks that are done, in the order in which they got there.
    pub fn done(&self) -> (tasks: &Vec<Task>)
        ensures
            task_views(tasks@) == self@.done,
    {
        &self.done
    }

    /// The running slot.
    pub fn running_task(&self) -> (running: &Option<(Turn, QueueLayer)>)
        ensures
            slot_view(*running) == self@.running,
    {
        &self.running_task
    }

    /// Ticks from the current clock to the next clock at which promotion is
    /// due; the whole period where it is due now.
    pub fn ticks_until_sync(&self) -> (ticks: usize)
        requires
            self@.wf(),
        ensures
            ticks == self@.job_sync_period - self@.clock as int % self@.job_sync_period as int,
    {
        self.job_sync_period - (self.clock % self.job_sync_period)
    }

    /// The job creator's tick: see [`SchedulerView::poll`].
    pub fn poll(&mut self, sample: ArrivalSample)
        requires
            old(self)@.wf(),
        ensures
            final(self)@ == old(self)@.poll(sample),
            final(self)@.wf(),
            old(self)@.timely() ==> final(self)@.timely(),
    {
        if let Some(def) = self.job_creator.poll(sample) {
            self.submit(def);
        }
    }

    /// Whether `bound` tasks or more are resident in the feedback levels.
    fn resident_reaches(&self, bound: usize) -> (reached: bool)
        ensures
            reached == (self@.levels.resident() >= bound),
    {
        let at1 = self.q1.len();
        if at1 >= bound {
            return true;
        }
        let at2 = self.q2.len();
        if at2 >= bound - at1 {
            return true;
        }
        self.q3.len() >= bound - at1 - at2
    }

    /// One promotion: see [`SchedulerView::sync_jobs`]. While the feedback
    /// levels hold `job_threshold` tasks or more, nothing moves. Otherwise
    /// tasks leave admission for L1, the highest priority and within it the
    /// earliest arrival first, until admission is empty or `job_threshold`
    /// tasks have moved. Each is stamped with the clock.
    pub fn sync_jobs(&mut self)
        requires
            old(self)@.wf(),
        ensures
            final(self)@ == old(self)@.sync_jobs(),
            final(self)@.wf(),
            old(self)@.timely() ==> final(self)@.timely(),
    {
        let ghost before = self@;
        proof {
            lemma_sync_jobs_wf(before);
            if before.timely() {
                lemma_sync_jobs_in_time(before, before.clock as int);
            }
            assert(before.admission.skip(0) =~= before.admission);
            assert(before.levels.q1 + promoted(before.admission.take(0), before.clock)
                =~= before.levels.q1);
        }
        if self.resident_reaches(self.job_threshold) {
            return ;
        }
        let ghost mut moved: int = 0;
        let mut counter = self.job_threshold;
        loop
            invariant_except_break
                counter > 0,
            invariant
                before.wf(),
                before.levels.resident() < before.job_threshold,
                0 <= moved <= before.admission.len(),
                counter + moved == before.job_threshold,
                self.priority_queue.wf(),
                self@ == (SchedulerView {
                    admission: before.admission.skip(moved),
                    levels: Levels {
                        q1: before.levels.q1 + promoted(
                            before.admission.take(moved),
                            before.clock,
                        ),
                        ..before.levels
                    },
                    ..before
                }),
            ensures
                moved == before.quota(),
            decreases before.admission.len() - moved,
        {
            let ghost waiting = self@.admission;
            let ghost level = self@.levels.q1;
            match self.priority_queue.pop() {
                None => {
                    break ;
                },
                Some(mut task) => {
                    task.set_schedule_time(self.clock);
                    self.q1.push(task);
                    counter = counter - 1;
                    proof {
                        let leaving = before.admission[moved];
                        assert(waiting[0] == leaving);
                        assert(task@ == leaving.scheduled(before.clock));
                        assert(waiting.skip(1) =~= before.admission.skip(moved + 1));
                        assert(before.admission.take(moved + 1) =~= before.admission.take(
                            moved,
                        ).push(leaving));
                        assert(promoted(before.admission.take(moved + 1), before.clock)
                            =~= promoted(before.admission.take(moved), before.clock).push(task@));
                        assert(level.push(task@) =~= before.levels.q1 + promoted(
                            before.admission.take(moved + 1),
                            before.clock,
                        ));
                        moved = moved + 1;
                    }
                    if counter == 0 {
                        break ;
                    }
                },
            }
        }
    }

    /// The promotion step of a tick: a promotion where the clock is a
    /// multiple of the sync period.
    pub fn sync(&mut self)
        requires
            old(self)@.wf(),
        ensures
            final(self)@ == old(self)@.sync(),
            final(self)@.wf(),
            old(self)@.timely() ==> final(self)@.timely(),
    {
        if self.clock % self.job_sync_period == 0 {
            self.sync_jobs();
        }
    }

    /// The dispatch step of a tick: fills a free running slot with what the
    /// policy dispatches for `draw`.
    pub fn dispatch(&mut self, draw: Draw)
        requires
            old(self)@.wf(),
        ensures
            final(self)@ == old(self)@.dispatch::<D>(draw),
            final(self)@.wf(),
            old(self)@.timely() ==> final(self)@.timely(),
    {
        proof {
            lemma_dispatch_wf::<D>(self@, draw);
            if self@.timely() {
                lemma_dispatch_in_time::<D>(self@, draw, self@.clock as int);
            }
        }
        if self.running_task.is_none() {
            self.running_task =
            self.dispatcher.dispatch(&mut self.q1, &mut self.q2, &mut self.q3, draw);
        }
    }

    /// The execution step of a tick: gives the running turn, if there is
    /// one, its tick at the current clock, and moves its task on where the
    /// turn has ended. Until the clock moves on, the task counts as executed
    /// at a tick that is yet to be played.
    pub fn execute(&mut self)
        requires
            old(self)@.wf(),
        ensures
            final(self)@ == old(self)@.execute(),
            final(self)@.wf(),
    {
        proof {
            lemma_execute_wf(self@);
        }
        if let Some((mut job, prev_layer)) = self.running_task.take() {
            match job.exec(self.clock) {
                Status::Ready => {
                    self.running_task = Some((job, prev_layer));
                },
                Status::TimeOut => {
                    let task = job.take();
                    match prev_layer {
                        QueueLayer::L1 => self.q2.push(task),
                        QueueLayer::L2 => self.q3.push(task),
                        QueueLayer::L3 => unreached(),
                    }
                },
                Status::Finished => {
                    let task = job.take();
                    self.done.push(task);
                    assert(task_views(self.done@) =~= task_views(old(self).done@).push(task@));
                },
            }
        }
    }

    /// Plays one tick: the job creator's tick with `sample`, the promotion
    /// step, the dispatch step with `draw`, the execution step, and the
    /// clock moved on by one. The clock must have a successor.
    pub fn run(&mut self, sample: ArrivalSample, draw: Draw)
        requires
            old(self)@.wf(),
            old(self)@.clock < usize::MAX,
        ensures
            final(self)@ == old(self)@.step::<D>(sample, draw),
            final(self)@.wf(),
            old(self)@.timely() ==> final(self)@.timely(),
    {
        proof {
            if self@.timely() {
                lemma_step_timely::<D>(self@, sample, draw);
            }
        }
        self.poll(sample);
        self.sync();
        self.dispatch(draw);
        self.execute();
        self.clock = self.clock + 1;
    }

    /// The records of the tasks in the scheduler: those that are done, then
    /// those that wait at L1, L2 and L3, then those in admission. Nothing
    /// is taken out of any queue.
    pub fn export(&self) -> (records: Vec<TaskRecord>)
        requires
            self@.wf(),
        ensures
            record_views(records@) == self@.records(),
    {
        let mut records: Vec<TaskRecord> = Vec::new();
        proof {
            assert(record_views(records@) =~= Seq::<TaskRecordView>::empty());
            lemma_all_at_wf(self@.admission, Stage::Admission);
            lemma_all_at_wf(self@.levels.q1, Stage::Feedback);
            lemma_all_at_wf(self@.levels.q2, Stage::Feedback);
            lemma_all_at_wf(self@.levels.q3, Stage::Feedback);
            lemma_all_at_wf(self@.done, Stage::Done);
        }
        export_tasks(&self.done, &mut records);
        self.q1.export_into(&mut records);
        self.q2.export_into(&mut records);
        self.q3.export_into(&mut records);
        self.priority_queue.export_into(&mut records);
        records
    }
}

} // verus!
