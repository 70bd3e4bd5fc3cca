//! Tasks: what a job asks for, how far it has come, and what is exported
//! of it.

use crate::draw::Draw;
use vstd::prelude::*;

verus! {

/// Where a task stands in its life. `Finished` and `TimeOut` are terminal.
#[derive(Debug, Clone, Copy, PartialEq, Eq, Structural)]
pub enum Status {
    Ready,
    Finished,
    TimeOut,
}

impl Status {
    pub open spec fn label_spec(self) -> Seq<char> {
        match self {
            Status::Ready => "Ready"@,
            Status::Finished => "Finished"@,
            Status::TimeOut => "TimeOut"@,
        }
    }

    /// The name under which the status is exported.
    pub fn label(&self) -> (s: String)
        ensures
            s@ == self.label_spec(),
    {
        match self {
            Status::Ready => "Ready".to_owned(),
            Status::Finished => "Finished".to_owned(),
            Status::TimeOut => "TimeOut".to_owned(),
        }
    }
}

/// Scheduling class of a task: `Low < Normal < High`.
#[derive(Debug, Clone, Copy, PartialEq, Eq, Structural, Ord)]
pub enum Priority {
    Low,
    Normal,
    High,
}

/// Draws below this many thousandths give `Priority::Low`.
pub const LOW_BELOW: u16 = 700;

/// Draws below this many thousandths, and not `Low`, give `Priority::Normal`.
pub const NORMAL_BELOW: u16 = 900;

impl Priority {
    /// Position in the order `Low < Normal < High`.
    pub open spec fn level(self) -> nat {
        match self {
            Priority::Low => 0,
            Priority::Normal => 1,
            Priority::High => 2,
        }
    }

    pub fn rank(&self) -> (r: u8)
        ensures
            r == self.level(),
    {
        match self {
            Priority::Low => 0,
            Priority::Normal => 1,
            Priority::High => 2,
        }
    }

    pub open spec fn label_spec(self) -> Seq<char> {
        match self {
            Priority::Low => "Low"@,
            Priority::Normal => "Normal"@,
            Priority::High => "High"@,
        }
    }

    /// The name under which the priority is exported.
    pub fn label(&self) -> (s: String)
        ensures
            s@ == self.label_spec(),
    {
        match self {
            Priority::Low => "Low".to_owned(),
            Priority::Normal => "Normal".to_owned(),
            Priority::High => "High".to_owned(),
        }
    }

    /// The priority that a uniform draw selects: `Low` on `[0, 0.7)`,
    /// `Normal` on `[0.7, 0.9)`, `High` on `[0.9, 1)`.
    pub open spec fn of_draw(draw: Draw) -> Priority {
        if draw.value() < LOW_BELOW {
            Priority::Low
        } else if draw.value() < NORMAL_BELOW {
            Priority::Normal
        } else {
            Priority::High
        }
    }

    pub fn from_draw(draw: Draw) -> (p: Priority)
        ensures
            p == Priority::of_draw(draw),
    {
        if draw.below(LOW_BELOW) {
            Priority::Low
        } else if draw.below(NORMAL_BELOW) {
            Priority::Normal
        } else {
            Priority::High
        }
    }
}

/// Creation parameters of a task.
#[derive(Debug, Clone, Copy, PartialEq, Eq, Structural)]
pub struct TaskDefinition {
    pub exec_time: usize,
    pub priority: Priority,
    pub timeout: Option<usize>,
}

impl TaskDefinition {
    pub fn new(exec_time: usize, priority: Priority, timeout: Option<usize>) -> (def: Self)
        ensures
            def == (TaskDefinition { exec_time, priority, timeout }),
    {
        Self { exec_time, priority, timeout }
    }
}

/// Mathematical model of a [`Task`].
pub struct TaskView {
    pub exec_time: usize,
    pub arrival_time: usize,
    pub schedule_time: Option<usize>,
    pub remaining: usize,
    pub priority: Priority,
    pub status: Status,
    pub progress: Seq<usize>,
    pub timeout: Option<usize>,
}

impl TaskView {
    /// A task as it is created: nothing executed, not yet promoted.
    pub open spec fn new(
        exec_time: usize,
        priority: Priority,
        arrival_time: usize,
        timeout: Option<usize>,
    ) -> TaskView {
        TaskView {
            exec_time,
            arrival_time,
            schedule_time: None,
            remaining: exec_time,
            priority,
            status: Status::Ready,
            progress: Seq::empty(),
            timeout,
        }
    }

    /// The task has a timeout and `clock` lies beyond `arrival_time + timeout`.
    pub open spec fn expired_at(self, clock: usize) -> bool {
        self.timeout matches Some(t) && self.arrival_time + t < clock
    }

    /// The task after one call of `exec` at `clock`.
    pub open spec fn exec(self, clock: usize) -> TaskView {
        if self.expired_at(clock) {
            TaskView { status: Status::TimeOut, ..self }
        } else {
            let remaining = if self.remaining > 0 {
                (self.remaining - 1) as usize
            } else {
                0
            };
            TaskView {
                progress: self.progress.push(clock),
                remaining,
                status: if remaining == 0 {
                    Status::Finished
                } else {
                    Status::Ready
                },
                ..self
            }
        }
    }

    /// The task after `exec` at each of `clocks` in turn.
    pub open spec fn exec_all(self, clocks: Seq<usize>) -> TaskView
        decreases clocks.len(),
    {
        if clocks.len() == 0 {
            self
        } else {
            self.exec_all(clocks.drop_last()).exec(clocks.last())
        }
    }

    /// The task with its promotion stamped at `time`.
    pub open spec fn scheduled(self, time: usize) -> TaskView {
        TaskView { schedule_time: Some(time), ..self }
    }

    /// What holds of every task that `new`, `exec` and `set_schedule_time`
    /// can produce: the ticks left are those not yet executed, a finished
    /// task has none left, and an abandoned task has a deadline that some
    /// clock value lies beyond.
    pub open spec fn wf(self) -> bool {
        &&& self.remaining == if self.progress.len() <= self.exec_time {
            self.exec_time - self.progress.len()
        } else {
            0
        }
        &&& self.status == Status::Finished ==> self.remaining == 0
        &&& self.status == Status::TimeOut ==> self.timeout is Some && self.arrival_time
            + self.timeout->0 < usize::MAX
    }

    /// `self` leaves the admission queue before `other`: it has the higher
    /// priority, or the same priority and the earlier arrival.
    pub open spec fn outranks(self, other: TaskView) -> bool {
        self.priority.level() > other.priority.level() || (self.priority == other.priority
            && self.arrival_time < other.arrival_time)
    }

    pub open spec fn service_start(self) -> usize {
        if self.progress.len() > 0 {
            self.progress.first()
        } else {
            0
        }
    }

    pub open spec fn service_end(self) -> int {
        match self.status {
            Status::TimeOut => self.arrival_time + self.timeout.unwrap_or(0),
            _ => if self.progress.len() > 0 {
                self.progress.last() as int
            } else {
                0
            },
        }
    }

    /// The exported projection of the task.
    pub open spec fn record(self) -> TaskRecordView {
        TaskRecordView {
            service_start: self.service_start() as int,
            service_end: self.service_end(),
            arrival_time: self.arrival_time as int,
            schedule_time: self.schedule_time.unwrap_or(0) as int,
            service_time: self.progress.len() as int,
            exec_time: self.exec_time as int,
            priority: self.priority.label_spec(),
            status: self.status.label_spec(),
        }
    }
}

/// Whether `clocks` never steps back.
pub open spec fn non_decreasing(clocks: Seq<usize>) -> bool {
    forall|i: int, j: int| 0 <= i <= j < clocks.len() ==> clocks[i] <= clocks[j]
}

/// However often and at whatever clocks a task is executed, its remaining
/// work never grows.
pub proof fn lemma_remaining_never_grows(task: TaskView, clocks: Seq<usize>)
    ensures
        task.exec_all(clocks).remaining <= task.remaining,
    decreases clocks.len(),
{
    if clocks.len() > 0 {
        lemma_remaining_never_grows(task, clocks.drop_last());
    }
}

/// Executing keeps a task well formed.
pub proof fn lemma_exec_all_wf(task: TaskView, clocks: Seq<usize>)
    requires
        task.wf(),
    ensures
        task.exec_all(clocks).wf(),
    decreases clocks.len(),
{
    if clocks.len() > 0 {
        lemma_exec_all_wf(task, clocks.drop_last());
    }
}

/// A task that has left `Ready` does not return to it by one more execution.
/// The one exception is left out: an abandoned task with two or more ticks
/// of work left that is executed at a clock not beyond its deadline.
pub proof fn lemma_terminal_stays_terminal(task: TaskView, clock: usize)
    requires
        task.wf(),
        task.status != Status::Ready,
        !(task.status == Status::TimeOut && !task.expired_at(clock) && task.remaining >= 2),
    ensures
        task.exec(clock).status != Status::Ready,
{
}

/// Executed at clocks that never step back, a task that does not start out
/// abandoned and has once left `Ready` is never `Ready` again.
pub proof fn lemma_status_never_returns_to_ready(
    task: TaskView,
    clocks: Seq<usize>,
    i: int,
    j: int,
)
    requires
        task.wf(),
        task.status != Status::TimeOut,
        non_decreasing(clocks),
        0 <= i <= j <= clocks.len(),
        task.exec_all(clocks.take(i)).status != Status::Ready,
    ensures
        task.exec_all(clocks.take(j)).status != Status::Ready,
    decreases j - i,
{
    if i < j {
        lemma_abandoned_is_expired(task, clocks, j - 1);
        lemma_status_never_returns_to_ready(task, clocks, i, j - 1);
        lemma_exec_all_wf(task, clocks.take(j - 1));
        assert(clocks.take(j).drop_last() == clocks.take(j - 1));
        assert(clocks.take(j).last() == clocks[j - 1]);
    }
}

/// A task found abandoned after the first `k` of a run of clocks that never
/// step back was beyond its deadline at the last of them.
proof fn lemma_abandoned_is_expired(task: TaskView, clocks: Seq<usize>, k: int)
    requires
        task.status != Status::TimeOut,
        non_decreasing(clocks),
        0 <= k <= clocks.len(),
    ensures
        task.exec_all(clocks.take(k)).timeout == task.timeout,
        task.exec_all(clocks.take(k)).arrival_time == task.arrival_time,
        task.exec_all(clocks.take(k)).status == Status::TimeOut ==> k > 0 && task.expired_at(
            clocks[k - 1],
        ),
    decreases k,
{
    if k > 0 {
        lemma_abandoned_is_expired(task, clocks, k - 1);
        assert(clocks.take(k).drop_last() == clocks.take(k - 1));
        assert(clocks.take(k).last() == clocks[k - 1]);
        if k > 1 {
            assert(clocks[k - 2] <= clocks[k - 1]);
        }
    } else {
        assert(clocks.take(0).len() == 0);
    }
}

/// Mathematical model of a [`TaskRecord`].
pub struct TaskRecordView {
    pub service_start: int,
    pub service_end: int,
    pub arrival_time: int,
    pub schedule_time: int,
    pub service_time: int,
    pub exec_time: int,
    pub priority: Seq<char>,
    pub status: Seq<char>,
}

/// Flattened, read-only projection of a task for export.
#[derive(Debug, PartialEq, Eq)]
pub struct TaskRecord {
    pub service_start: usize,
    pub service_end: usize,
    pub arrival_time: usize,
    pub schedule_time: usize,
    pub service_time: usize,
    pub exec_time: usize,
    pub priority: String,
    pub status: String,
}

impl View for TaskRecord {
    type V = TaskRecordView;

    open spec fn view(&self) -> TaskRecordView {
        TaskRecordView {
            service_start: self.service_start as int,
            service_end: self.service_end as int,
            arrival_time: self.arrival_time as int,
            schedule_time: self.schedule_time as int,
            service_time: self.service_time as int,
            exec_time: self.exec_time as int,
            priority: self.priority@,
            status: self.status@,
        }
    }
}

/// One job: its requirements and how far it has been executed.
#[derive(Debug, PartialEq, Eq)]
pub struct Task {
    exec_time: usize,
    arrival_time: usize,
    schedule_time: Option<usize>,
    remaining: usize,
    priority: Priority,
    status: Status,
    progress: Vec<usize>,
    timeout: Option<usize>,
}

impl View for Task {
    type V = TaskView;

    closed spec fn view(&self) -> TaskView {
        TaskView {
            exec_time: self.exec_time,
            arrival_time: self.arrival_time,
            schedule_time: self.schedule_time,
            remaining: self.remaining,
            priority: self.priority,
            status: self.status,
            progress: self.progress@,
            timeout: self.timeout,
        }
    }
}

impl Task {
    pub fn new(
        exec_time: usize,
        priority: Priority,
        arival_time: usize,
        timeout: Option<usize>,
    ) -> (task: Self)
        ensures
            task@ == TaskView::new(exec_time, priority, arival_time, timeout),
            task@.wf(),
    {
        Self {
            exec_time,
            arrival_time: arival_time,
            schedule_time: None,
            remaining: exec_time,
            priority,
            status: Status::Ready,
            progress: Vec::new(),
            timeout,
        }
    }

    pub fn set_schedule_time(&mut self, time: usize)
        ensures
            final(self)@ == old(self)@.scheduled(time),
            old(self)@.wf() ==> final(self)@.wf(),
    {
        self.schedule_time = Some(time);
    }

    /// Advances the task by one tick at `clock`. A task whose deadline
    /// `arrival_time + timeout` lies before `clock` is abandoned and records
    /// nothing; any other task records the tick and loses one tick of
    /// remaining work, down to zero.
    pub fn exec(&mut self, clock: usize)
        ensures
            final(self)@ == old(self)@.exec(clock),
            final(self)@.remaining <= old(self)@.remaining,
            old(self)@.wf() ==> final(self)@.wf(),
    {
        if let Some(timeout) = self.timeout {
            let expired = match self.arrival_time.checked_add(timeout) {
                Some(deadline) => deadline < clock,
                None => false,
            };
            if expired {
                self.status = Status::TimeOut;
                return ;
            }
        }
        self.progress.push(clock);
        if self.remaining > 0 {
            self.remaining = self.remaining - 1;
        }
        if self.remaining == 0 {
            self.status = Status::Finished;
        } else {
            self.status = Status::Ready;
        }
    }

    /// The record under which the task is exported. An abandoned task reports
    /// its deadline as the end of its service.
    pub fn export(&self) -> (record: TaskRecord)
        requires
            self@.wf(),
        ensures
            record@ == self@.record(),
    {
        let served = self.progress.len();
        let service_start = if served > 0 {
            self.progress[0]
        } else {
            0
        };
        let service_end = match self.status {
            Status::TimeOut => match self.timeout {
                Some(timeout) => self.arrival_time + timeout,
                None => self.arrival_time,
            },
            _ => if served > 0 {
                self.progress[served - 1]
            } else {
                0
            },
        };
        TaskRecord {
            service_start,
            service_end,
            arrival_time: self.arrival_time,
            schedule_time: match self.schedule_time {
                Some(time) => time,
                None => 0,
            },
            service_time: served,
            exec_time: self.exec_time,
            priority: self.priority.label(),
            status: self.status.label(),
        }
    }

    pub fn exec_time(&self) -> (r: usize)
        ensures
            r == self@.exec_time,
    {
        self.exec_time
    }

    pub fn arrival_time(&self) -> (r: usize)
        ensures
            r == self@.arrival_time,
    {
        self.arrival_time
    }

    pub fn schedule_time(&self) -> (r: Option<usize>)
        ensures
            r == self@.schedule_time,
    {
        self.schedule_time
    }

    pub fn remaining(&self) -> (r: usize)
        ensures
            r == self@.remaining,
    {
        self.remaining
    }

    pub fn priority(&self) -> (r: Priority)
        ensures
            r == self@.priority,
    {
        self.priority
    }

    pub fn status(&self) -> (r: Status)
        ensures
            r == self@.status,
    {
        self.status
    }

    pub fn timeout(&self) -> (r: Option<usize>)
        ensures
            r == self@.timeout,
    {
        self.timeout
    }

    /// The ticks at which the task was executed, oldest first.
    pub fn progress(&self) -> (r: &Vec<usize>)
        ensures
            r@ == self@.progress,
    {
        &self.progress
    }

    /// Whether `self` leaves the admission queue before `other`.
    pub fn outranks(&self, other: &Task) -> (b: bool)
        ensures
            b == self@.outranks(other@),
    {
        let mine = self.priority.rank();
        let theirs = other.priority.rank();
        mine > theirs || (mine == theirs && self.arrival_time < other.arrival_time)
    }
}

/// The models of `tasks`, in the same order.
pub open spec fn task_views(tasks: Seq<Task>) -> Seq<TaskView> {
    tasks.map_values(|task: Task| task@)
}

/// Every task of `tasks` is well formed.
pub open spec fn all_wf(tasks: Seq<TaskView>) -> bool {
    forall|i: int| 0 <= i < tasks.len() ==> (#[trigger] tasks[i]).wf()
}

/// The models of `records`, in the same order.
pub open spec fn record_views(records: Seq<TaskRecord>) -> Seq<TaskRecordView> {
    records.map_values(|record: TaskRecord| record@)
}

/// The exported projections of `tasks`, in the same order.
pub open spec fn records_of(tasks: Seq<TaskView>) -> Seq<TaskRecordView> {
    tasks.map_values(|task: TaskView| task.record())
}

/// Appends the record of each of `tasks` to `records`, in order.
pub fn export_tasks(tasks: &Vec<Task>, records: &mut Vec<TaskRecord>)
    requires
        all_wf(task_views(tasks@)),
    ensures
        record_views(final(records)@) == record_views(old(records)@) + records_of(
            task_views(tasks@),
        ),
{
    let ghost before = record_views(records@);
    let ghost views = task_views(tasks@);
    let mut i: usize = 0;
    while i < tasks.len()
        invariant
            i <= tasks.len(),
            views == task_views(tasks@),
            all_wf(views),
            record_views(records@) == before + records_of(views.take(i as int)),
        decreases tasks.len() - i,
    {
        let ghost filled = records@;
        assert(views[i as int].wf());
        let record = tasks[i].export();
        records.push(record);
        proof {
            assert(views.take(i + 1) =~= views.take(i as int).push(views[i as int]));
            assert(record_views(records@) =~= record_views(filled).push(record@));
            assert(records_of(views.take(i + 1)) =~= records_of(views.take(i as int)).push(
                views[i as int].record(),
            ));
        }
        i = i + 1;
    }
    assert(views.take(i as int) == views);
}

} // verus!
