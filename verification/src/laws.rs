//! What holds of the scheduler's model: how a promotion, a turn and a whole
//! tick change it, and what they leave as it is.

use crate::admission::{lemma_insert_ordered, lemma_slot, slot};
use crate::context::{lemma_turn_exec_wf, Status, TurnView};
use crate::draw::Draw;
use crate::job_creator::ArrivalSample;
use crate::job_dispatcher::JobDispatcher;
use crate::model::{all_at, all_in_time, at_stage, in_time, promoted, SchedulerView, Stage};
use crate::task;
use crate::task::{all_wf, TaskDefinition, TaskView};
use crate::QueueLayer;
use vstd::prelude::*;

verus! {

/// A promotion moves a fixed quota, whatever the feedback levels hold below
/// the threshold: `job_threshold` tasks, or all of admission where that is
/// fewer. They are the first of admission, they arrive at the end of L1 in
/// the order in which they left, stamped with the clock, and nothing else
/// changes.
pub proof fn lemma_promotion_quota(s: SchedulerView)
    requires
        s.levels.resident() < s.job_threshold,
    ensures
        s.quota() == if s.admission.len() <= s.job_threshold {
            s.admission.len()
        } else {
            s.job_threshold as nat
        },
        s.sync_jobs().levels.q1.len() == s.levels.q1.len() + s.quota(),
        s.sync_jobs().admission.len() == s.admission.len() - s.quota(),
        forall|i: int|
            0 <= i < s.levels.q1.len() ==> (#[trigger] s.sync_jobs().levels.q1[i])
                == s.levels.q1[i],
        forall|i: int|
            0 <= i < s.quota() ==> (#[trigger] s.sync_jobs().levels.q1[s.levels.q1.len() + i])
                == s.admission[i].scheduled(s.clock),
        forall|i: int|
            0 <= i < s.sync_jobs().admission.len() ==> (#[trigger] s.sync_jobs().admission[i])
                == s.admission[s.quota() + i],
        s.sync_jobs().levels.q2 == s.levels.q2,
        s.sync_jobs().levels.q3 == s.levels.q3,
        s.sync_jobs().running == s.running,
        s.sync_jobs().done == s.done,
{
}

/// While the feedback levels hold `job_threshold` tasks or more, a promotion
/// changes nothing.
pub proof fn lemma_promotion_skipped(s: SchedulerView)
    requires
        s.levels.resident() >= s.job_threshold,
    ensures
        s.sync_jobs() == s,
{
    assert(s.admission.skip(0) =~= s.admission);
    assert(s.levels.q1 + promoted(s.admission.take(0), s.clock) =~= s.levels.q1);
}

/// A promoted task outranks no task promoted before it in the same
/// promotion: tasks reach L1 by priority, and within a priority by arrival.
pub proof fn lemma_promotion_order(s: SchedulerView, i: int, j: int)
    requires
        s.wf(),
        0 <= i < j < s.quota(),
    ensures
        !s.admission[j].outranks(s.admission[i]),
        forall|k: int|
            s.quota() <= k < s.admission.len() ==> !(#[trigger] s.admission[k]).outranks(
                s.admission[i],
            ),
{
}

/// A turn whose slice is used up hands its task one level down: from L1 to
/// the end of L2, from L2 to the end of L3. The task is not executed in that
/// tick, it does not return to L1, and it does not count as done.
pub proof fn lemma_expired_slice_demotes(s: SchedulerView, turn: TurnView, layer: QueueLayer)
    requires
        s.wf(),
        s.running == Some((turn, layer)),
        turn.signal(s.clock) == Status::TimeOut,
    ensures
        layer != QueueLayer::L3,
        s.execute().running is None,
        s.execute().done == s.done,
        s.execute().admission == s.admission,
        s.execute().levels.q1 == s.levels.q1,
        layer == QueueLayer::L1 ==> s.execute().levels.q2 == s.levels.q2.push(turn.task)
            && s.execute().levels.q3 == s.levels.q3,
        layer == QueueLayer::L2 ==> s.execute().levels.q3 == s.levels.q3.push(turn.task)
            && s.execute().levels.q2 == s.levels.q2,
{
}

/// A turn out of the last level is never cut short: its task is executed
/// at every tick and keeps the slot while it is `Ready`, and joins the tasks
/// that are done at the tick at which it is not. No level changes.
pub proof fn lemma_last_level_runs_to_completion(s: SchedulerView, turn: TurnView)
    requires
        s.wf(),
        s.running == Some((turn, QueueLayer::L3)),
    ensures
        s.execute().levels == s.levels,
        ({
            let task = turn.task.exec(s.clock);
            if task.status == task::Status::Ready {
                &&& s.execute().running == Some(
                    (TurnView { task, budget: None }, QueueLayer::L3),
                )
                &&& s.execute().done == s.done
            } else {
                &&& s.execute().running is None
                &&& s.execute().done == s.done.push(task)
            }
        }),
{
}

/// The execution step leaves L1 and admission as they are: no task comes
/// back to them from the running slot.
pub proof fn lemma_execute_spares_first_level(s: SchedulerView)
    ensures
        s.execute().levels.q1 == s.levels.q1,
        s.execute().admission == s.admission,
{
}

/// A tick loses no task and makes none up: the number of tasks in the
/// scheduler grows by one where an arrival was due, and stays else.
pub proof fn lemma_step_population<D: JobDispatcher>(
    s: SchedulerView,
    sample: ArrivalSample,
    draw: Draw,
)
    ensures
        s.step::<D>(sample, draw).population() == s.population() + if s.countdown == 0 {
            1nat
        } else {
            0nat
        },
{
    lemma_slot(s.admission, s.admitted(sample.definition()));
    let polled = s.poll(sample);
    assert(polled.population() == s.population() + if s.countdown == 0 {
        1nat
    } else {
        0nat
    });
    let synced = polled.sync();
    assert(synced.population() == polled.population());
    let loaded = synced.dispatch::<D>(draw);
    assert(loaded.population() == synced.population());
    let played = loaded.execute();
    assert(played.population() == loaded.population());
}

/// Tasks that fit a stage stay so when one more that fits joins them, at
/// whatever place.
pub proof fn lemma_all_at_insert(tasks: Seq<TaskView>, stage: Stage, i: int, task: TaskView)
    requires
        all_at(tasks, stage),
        at_stage(task, stage),
        0 <= i <= tasks.len(),
    ensures
        all_at(tasks.insert(i, task), stage),
        all_at(tasks.push(task), stage),
{
    let joined = tasks.insert(i, task);
    assert forall|k: int| 0 <= k < joined.len() implies at_stage(#[trigger] joined[k], stage) by {
        if k < i {
            assert(joined[k] == tasks[k]);
        } else if k > i {
            assert(joined[k] == tasks[k - 1]);
        }
    }
    let pushed = tasks.push(task);
    assert forall|k: int| 0 <= k < pushed.len() implies at_stage(#[trigger] pushed[k], stage) by {
        if k < tasks.len() {
            assert(pushed[k] == tasks[k]);
        }
    }
}

/// Any stretch of tasks that fit a stage fits it.
pub proof fn lemma_all_at_subrange(tasks: Seq<TaskView>, stage: Stage, from: int, to: int)
    requires
        all_at(tasks, stage),
        0 <= from <= to <= tasks.len(),
    ensures
        all_at(tasks.subrange(from, to), stage),
{
    let part = tasks.subrange(from, to);
    assert forall|k: int| 0 <= k < part.len() implies at_stage(#[trigger] part[k], stage) by {
        assert(part[k] == tasks[from + k]);
    }
}

/// Tasks that fit a stage are well formed.
pub proof fn lemma_all_at_wf(tasks: Seq<TaskView>, stage: Stage)
    requires
        all_at(tasks, stage),
    ensures
        all_wf(tasks),
{
    assert forall|k: int| 0 <= k < tasks.len() implies (#[trigger] tasks[k]).wf() by {
        assert(at_stage(tasks[k], stage));
    }
}

/// Submitting a task keeps the scheduler's invariant.
pub proof fn lemma_submit_wf(s: SchedulerView, def: TaskDefinition)
    requires
        s.wf(),
    ensures
        s.submit(def).wf(),
{
    let task = s.admitted(def);
    lemma_slot(s.admission, task);
    lemma_insert_ordered(s.admission, task);
    lemma_all_at_insert(s.admission, Stage::Admission, slot(s.admission, task), task);
}

/// A promotion keeps the scheduler's invariant.
pub proof fn lemma_sync_jobs_wf(s: SchedulerView)
    requires
        s.wf(),
    ensures
        s.sync_jobs().wf(),
{
    let moved = s.quota() as int;
    lemma_all_at_subrange(s.admission, Stage::Admission, moved, s.admission.len() as int);
    let level = s.levels.q1 + promoted(s.admission.take(moved), s.clock);
    assert forall|k: int| 0 <= k < level.len() implies at_stage(
        #[trigger] level[k],
        Stage::Feedback,
    ) by {
        if k >= s.levels.q1.len() {
            assert(at_stage(s.admission[k - s.levels.q1.len()], Stage::Admission));
        } else {
            assert(at_stage(s.levels.q1[k], Stage::Feedback));
        }
    }
}

/// The dispatch step keeps the scheduler's invariant.
pub proof fn lemma_dispatch_wf<D: JobDispatcher>(s: SchedulerView, draw: Draw)
    requires
        s.wf(),
    ensures
        s.dispatch::<D>(draw).wf(),
{
    let levels = s.levels;
    if levels.q1.len() > 0 {
        lemma_all_at_subrange(levels.q1, Stage::Feedback, 1, levels.q1.len() as int);
    }
    if levels.q2.len() > 0 {
        lemma_all_at_subrange(levels.q2, Stage::Feedback, 1, levels.q2.len() as int);
    }
    if levels.q3.len() > 0 {
        lemma_all_at_subrange(levels.q3, Stage::Feedback, 0, levels.q3.len() - 1);
    }
}

/// The execution step keeps the scheduler's invariant.
pub proof fn lemma_execute_wf(s: SchedulerView)
    requires
        s.wf(),
    ensures
        s.execute().wf(),
{
    if let Some((turn, layer)) = s.running {
        lemma_turn_exec_wf(turn, s.clock);
        let task = turn.exec(s.clock).task;
        match turn.signal(s.clock) {
            Status::Ready => {},
            Status::TimeOut => {
                lemma_all_at_insert(s.levels.q2, Stage::Feedback, 0, task);
                lemma_all_at_insert(s.levels.q3, Stage::Feedback, 0, task);
            },
            Status::Finished => {
                lemma_all_at_insert(s.done, Stage::Done, 0, task);
            },
        }
    }
}

/// A tick keeps the scheduler's invariant, and so does each of its steps.
pub proof fn lemma_step_wf<D: JobDispatcher>(s: SchedulerView, sample: ArrivalSample, draw: Draw)
    requires
        s.wf(),
    ensures
        s.poll(sample).wf(),
        s.poll(sample).sync().wf(),
        s.poll(sample).sync().dispatch::<D>(draw).wf(),
        s.step::<D>(sample, draw).wf(),
{
    if s.countdown == 0 {
        lemma_submit_wf(SchedulerView { countdown: sample.interval, ..s }, sample.definition());
    }
    let polled = s.poll(sample);
    lemma_sync_jobs_wf(polled);
    let synced = polled.sync();
    lemma_dispatch_wf::<D>(synced, draw);
    let loaded = synced.dispatch::<D>(draw);
    lemma_execute_wf(loaded);
}

/// Tasks that have kept time have done so for every later clock and limit.
pub proof fn lemma_in_time_later(
    tasks: Seq<TaskView>,
    clock: int,
    limit: int,
    later_clock: int,
    later_limit: int,
)
    requires
        all_in_time(tasks, clock, limit),
        clock <= later_clock,
        limit <= later_limit,
    ensures
        all_in_time(tasks, later_clock, later_limit),
{
    assert forall|i: int| 0 <= i < tasks.len() implies in_time(
        #[trigger] tasks[i],
        later_clock,
        later_limit,
    ) by {
        assert(in_time(tasks[i], clock, limit));
    }
}

/// Tasks that have kept time still have when one more that has joins them,
/// at whatever place.
pub proof fn lemma_in_time_joined(
    tasks: Seq<TaskView>,
    clock: int,
    limit: int,
    i: int,
    task: TaskView,
)
    requires
        all_in_time(tasks, clock, limit),
        in_time(task, clock, limit),
        0 <= i <= tasks.len(),
    ensures
        all_in_time(tasks.insert(i, task), clock, limit),
        all_in_time(tasks.push(task), clock, limit),
{
    let joined = tasks.insert(i, task);
    assert forall|k: int| 0 <= k < joined.len() implies in_time(
        #[trigger] joined[k],
        clock,
        limit,
    ) by {
        if k < i {
            assert(joined[k] == tasks[k]);
        } else if k > i {
            assert(joined[k] == tasks[k - 1]);
        }
    }
    let pushed = tasks.push(task);
    assert forall|k: int| 0 <= k < pushed.len() implies in_time(
        #[trigger] pushed[k],
        clock,
        limit,
    ) by {
        if k < tasks.len() {
            assert(pushed[k] == tasks[k]);
        }
    }
}

/// Any stretch of tasks that have kept time has kept time.
pub proof fn lemma_in_time_subrange(
    tasks: Seq<TaskView>,
    clock: int,
    limit: int,
    from: int,
    to: int,
)
    requires
        all_in_time(tasks, clock, limit),
        0 <= from <= to <= tasks.len(),
    ensures
        all_in_time(tasks.subrange(from, to), clock, limit),
{
    let part = tasks.subrange(from, to);
    assert forall|k: int| 0 <= k < part.len() implies in_time(#[trigger] part[k], clock, limit) by {
        assert(part[k] == tasks[from + k]);
    }
}

/// A task that has kept time up to `clock` and is executed at `clock` has
/// kept time up to the tick after.
pub proof fn lemma_exec_in_time(task: TaskView, clock: usize)
    requires
        in_time(task, clock as int, clock as int),
    ensures
        in_time(task.exec(clock), clock as int, clock + 1),
{
    let after = task.exec(clock);
    assert forall|i: int| 0 <= i < after.progress.len() implies {
        &&& (#[trigger] after.progress[i]) < clock + 1
        &&& after.schedule_time matches Some(stamp) ==> stamp <= after.progress[i]
    } by {
        if i < task.progress.len() {
            assert(after.progress[i] == task.progress[i]);
        }
    }
    assert forall|i: int, j: int| 0 <= i < j < after.progress.len() implies after.progress[i]
        < after.progress[j] by {
        assert(after.progress[i] == task.progress[i]);
        if j < task.progress.len() {
            assert(after.progress[j] == task.progress[j]);
        }
    }
}

/// Submitting a task leaves every task in time.
pub proof fn lemma_submit_in_time(s: SchedulerView, def: TaskDefinition, limit: int)
    requires
        s.in_time(limit),
    ensures
        s.submit(def).in_time(limit),
{
    let task = s.admitted(def);
    lemma_slot(s.admission, task);
    lemma_in_time_joined(s.admission, s.clock as int, limit, slot(s.admission, task), task);
}

/// A promotion leaves every task in time.
pub proof fn lemma_sync_jobs_in_time(s: SchedulerView, limit: int)
    requires
        s.wf(),
        s.in_time(limit),
    ensures
        s.sync_jobs().in_time(limit),
{
    let moved = s.quota() as int;
    lemma_in_time_subrange(s.admission, s.clock as int, limit, moved, s.admission.len() as int);
    let level = s.levels.q1 + promoted(s.admission.take(moved), s.clock);
    assert forall|k: int| 0 <= k < level.len() implies in_time(
        #[trigger] level[k],
        s.clock as int,
        limit,
    ) by {
        if k >= s.levels.q1.len() {
            let waiting = s.admission[k - s.levels.q1.len()];
            assert(at_stage(waiting, Stage::Admission));
            assert(in_time(waiting, s.clock as int, limit));
            assert(level[k] == waiting.scheduled(s.clock));
        } else {
            assert(in_time(s.levels.q1[k], s.clock as int, limit));
        }
    }
}

/// The dispatch step leaves every task in time.
pub proof fn lemma_dispatch_in_time<D: JobDispatcher>(s: SchedulerView, draw: Draw, limit: int)
    requires
        s.in_time(limit),
    ensures
        s.dispatch::<D>(draw).in_time(limit),
{
    let levels = s.levels;
    let c = s.clock as int;
    if levels.q1.len() > 0 {
        lemma_in_time_subrange(levels.q1, c, limit, 1, levels.q1.len() as int);
        assert(in_time(levels.q1[0], c, limit));
    }
    if levels.q2.len() > 0 {
        lemma_in_time_subrange(levels.q2, c, limit, 1, levels.q2.len() as int);
        assert(in_time(levels.q2[0], c, limit));
    }
    if levels.q3.len() > 0 {
        let last = levels.q3.len() - 1;
        lemma_in_time_subrange(levels.q3, c, limit, 0, last);
        assert(in_time(levels.q3[last], c, limit));
    }
}

/// After the execution step of a tick, every task is in time with the tick
/// after.
pub proof fn lemma_execute_in_time(s: SchedulerView)
    requires
        s.timely(),
    ensures
        s.execute().in_time(s.clock + 1),
{
    let c = s.clock as int;
    lemma_in_time_later(s.admission, c, c, c, c + 1);
    lemma_in_time_later(s.levels.q1, c, c, c, c + 1);
    lemma_in_time_later(s.levels.q2, c, c, c, c + 1);
    lemma_in_time_later(s.levels.q3, c, c, c, c + 1);
    lemma_in_time_later(s.done, c, c, c, c + 1);
    if let Some((turn, layer)) = s.running {
        lemma_exec_in_time(turn.task, s.clock);
        let task = turn.exec(s.clock).task;
        assert(in_time(task, c, c + 1));
        lemma_in_time_joined(s.levels.q2, c, c + 1, 0, task);
        lemma_in_time_joined(s.levels.q3, c, c + 1, 0, task);
        lemma_in_time_joined(s.done, c, c + 1, 0, task);
    }
}

/// A tick leaves every task in time with the clock: in a scheduler that is
/// driven tick by tick, no task is executed twice at one tick or at a tick
/// before its promotion, and none is promoted before it arrives.
pub proof fn lemma_step_timely<D: JobDispatcher>(
    s: SchedulerView,
    sample: ArrivalSample,
    draw: Draw,
)
    requires
        s.wf(),
        s.timely(),
        s.clock < usize::MAX,
    ensures
        s.step::<D>(sample, draw).timely(),
{
    let c = s.clock as int;
    if s.countdown == 0 {
        let counting = SchedulerView { countdown: sample.interval, ..s };
        lemma_submit_in_time(counting, sample.definition(), c);
    }
    let polled = s.poll(sample);
    lemma_step_wf::<D>(s, sample, draw);
    if polled.sync_due() {
        lemma_sync_jobs_in_time(polled, c);
    }
    let synced = polled.sync();
    lemma_dispatch_in_time::<D>(synced, draw, c);
    let loaded = synced.dispatch::<D>(draw);
    lemma_execute_in_time(loaded);
    let played = loaded.execute();
    lemma_in_time_later(played.admission, c, c + 1, c + 1, c + 1);
    lemma_in_time_later(played.levels.q1, c, c + 1, c + 1, c + 1);
    lemma_in_time_later(played.levels.q2, c, c + 1, c + 1, c + 1);
    lemma_in_time_later(played.levels.q3, c, c + 1, c + 1, c + 1);
    lemma_in_time_later(played.done, c, c + 1, c + 1, c + 1);
}

} // verus!
