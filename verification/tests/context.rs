use simul::context::{Context, DeadlineContext, DefaultContext, Status, Turn};
use simul::task;
use simul::task::{Priority, Task};

#[test]
fn bounded_turn_ends_when_its_slice_is_used_up() {
    let mut ctx = Task::new(5, Priority::Normal, 0, None).with_deadline(2);
    assert_eq!(ctx.deadline(), 2);
    assert_eq!(ctx.exec(0), Status::Ready);
    assert_eq!(ctx.deadline(), 1);
    assert_eq!(ctx.exec(1), Status::Ready);
    assert_eq!(ctx.deadline(), 0);
    assert_eq!(ctx.exec(2), Status::TimeOut);
    assert_eq!(ctx.exec(3), Status::TimeOut);
    let task = ctx.take();
    assert_eq!(task.remaining(), 3);
    assert_eq!(task.progress(), &vec![0, 1]);
    assert_eq!(task.status(), task::Status::Ready);
}

#[test]
fn bounded_turn_reports_a_task_that_finishes_within_the_slice() {
    let mut ctx = DeadlineContext::new(Task::new(2, Priority::Low, 0, None), 5);
    assert_eq!(ctx.exec(7), Status::Ready);
    assert_eq!(ctx.exec(8), Status::Finished);
    assert_eq!(ctx.deadline(), 3);
    assert_eq!(ctx.task().status(), task::Status::Finished);
    assert_eq!(ctx.take().progress(), &vec![7, 8]);
}

#[test]
fn bounded_turn_that_finishes_on_its_last_tick_is_finished() {
    let mut ctx = Task::new(2, Priority::Low, 0, None).with_deadline(2);
    assert_eq!(ctx.exec(0), Status::Ready);
    assert_eq!(ctx.exec(1), Status::Finished);
    assert_eq!(ctx.exec(2), Status::Finished);
    assert_eq!(ctx.take().progress(), &vec![0, 1]);
}

#[test]
fn used_up_slice_does_not_execute_the_task() {
    let mut ctx = Task::new(3, Priority::Low, 0, None).with_deadline(0);
    assert_eq!(ctx.exec(4), Status::TimeOut);
    let task = ctx.take();
    assert_eq!(task.remaining(), 3);
    assert!(task.progress().is_empty());
}

#[test]
fn unbounded_turn_runs_until_the_task_is_done() {
    let mut ctx = Task::new(3, Priority::High, 0, None).with_context();
    assert_eq!(ctx.exec(10), Status::Ready);
    assert_eq!(ctx.exec(11), Status::Ready);
    assert_eq!(ctx.exec(12), Status::Finished);
    let task = ctx.take();
    assert_eq!(task.status(), task::Status::Finished);
    assert_eq!(task.progress(), &vec![10, 11, 12]);
}

#[test]
fn unbounded_turn_never_times_out() {
    let mut ctx = DefaultContext::new(Task::new(50, Priority::High, 0, None));
    for clock in 0..49 {
        assert_eq!(ctx.exec(clock), Status::Ready);
    }
    assert_eq!(ctx.exec(49), Status::Finished);
    assert_eq!(ctx.task().remaining(), 0);
}

#[test]
fn abandoned_task_ends_its_turn_as_finished() {
    let mut bounded = Task::new(9, Priority::Low, 0, Some(2)).with_deadline(5);
    assert_eq!(bounded.exec(1), Status::Ready);
    assert_eq!(bounded.exec(3), Status::Finished);
    assert_eq!(bounded.deadline(), 3);
    let task = bounded.take();
    assert_eq!(task.status(), task::Status::TimeOut);
    assert_eq!(task.remaining(), 8);

    let mut unbounded = Task::new(9, Priority::Low, 0, Some(2)).with_context();
    assert_eq!(unbounded.exec(3), Status::Finished);
    assert_eq!(unbounded.take().status(), task::Status::TimeOut);
}

#[test]
fn slot_turn_behaves_as_the_turn_it_holds() {
    let mut bounded = Turn::Bounded(Task::new(4, Priority::Low, 0, None).with_deadline(1));
    assert_eq!(bounded.exec(0), Status::Ready);
    assert_eq!(bounded.exec(1), Status::TimeOut);
    assert_eq!(bounded.task().remaining(), 3);
    assert_eq!(bounded.take().progress(), &vec![0]);

    let mut unbounded = Turn::Unbounded(Task::new(2, Priority::Low, 0, None).with_context());
    assert_eq!(unbounded.exec(0), Status::Ready);
    assert_eq!(unbounded.exec(1), Status::Finished);
    assert_eq!(unbounded.take().remaining(), 0);
}
