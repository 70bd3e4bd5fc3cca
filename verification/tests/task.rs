use simul::draw::Draw;
use simul::task::{Priority, Status, Task, TaskDefinition};
use std::cmp::Ordering;

fn draw(thousandths: u16) -> Draw {
    Draw::new(thousandths).expect("a draw below one")
}

#[test]
fn new_task_is_ready_with_all_work_left() {
    let task = Task::new(7, Priority::Normal, 3, Some(10));
    assert_eq!(task.exec_time(), 7);
    assert_eq!(task.remaining(), 7);
    assert_eq!(task.arrival_time(), 3);
    assert_eq!(task.priority(), Priority::Normal);
    assert_eq!(task.status(), Status::Ready);
    assert_eq!(task.timeout(), Some(10));
    assert_eq!(task.schedule_time(), None);
    assert!(task.progress().is_empty());
}

#[test]
fn exec_records_the_tick_and_takes_one_off() {
    let mut task = Task::new(3, Priority::Low, 0, None);
    task.exec(4);
    assert_eq!(task.remaining(), 2);
    assert_eq!(task.status(), Status::Ready);
    assert_eq!(task.progress(), &vec![4]);
    task.exec(5);
    assert_eq!(task.remaining(), 1);
    assert_eq!(task.status(), Status::Ready);
    task.exec(9);
    assert_eq!(task.remaining(), 0);
    assert_eq!(task.status(), Status::Finished);
    assert_eq!(task.progress(), &vec![4, 5, 9]);
}

#[test]
fn exec_stops_at_zero() {
    let mut task = Task::new(0, Priority::Low, 0, None);
    assert_eq!(task.status(), Status::Ready);
    task.exec(1);
    assert_eq!(task.remaining(), 0);
    assert_eq!(task.status(), Status::Finished);
    assert_eq!(task.progress(), &vec![1]);
    task.exec(2);
    assert_eq!(task.remaining(), 0);
    assert_eq!(task.status(), Status::Finished);
    assert_eq!(task.progress(), &vec![1, 2]);
}

#[test]
fn exec_beyond_the_deadline_abandons_the_task() {
    let mut task = Task::new(4, Priority::High, 2, Some(5));
    task.exec(7);
    assert_eq!(task.status(), Status::Ready);
    assert_eq!(task.remaining(), 3);
    task.exec(8);
    assert_eq!(task.status(), Status::TimeOut);
    assert_eq!(task.remaining(), 3);
    assert_eq!(task.progress(), &vec![7]);
}

#[test]
fn exec_at_the_deadline_still_runs() {
    let mut task = Task::new(1, Priority::High, 10, Some(0));
    task.exec(10);
    assert_eq!(task.status(), Status::Finished);
    assert_eq!(task.progress(), &vec![10]);
}

#[test]
fn deadline_beyond_every_clock_never_passes() {
    let mut task = Task::new(2, Priority::Low, usize::MAX, Some(1));
    task.exec(usize::MAX);
    assert_eq!(task.status(), Status::Ready);
    assert_eq!(task.remaining(), 1);
}

#[test]
fn remaining_never_grows() {
    let mut task = Task::new(5, Priority::Normal, 0, Some(6));
    let mut last = task.remaining();
    for clock in [1usize, 1, 3, 2, 9, 4, 5, 6, 30, 0] {
        task.exec(clock);
        assert!(task.remaining() <= last);
        last = task.remaining();
    }
    assert_eq!(last, 0);
}

#[test]
fn finished_task_is_never_ready_again() {
    let mut task = Task::new(2, Priority::Normal, 0, Some(10));
    task.exec(1);
    task.exec(2);
    assert_eq!(task.status(), Status::Finished);
    for clock in 3..20 {
        task.exec(clock);
        assert_ne!(task.status(), Status::Ready);
    }
    assert_eq!(task.status(), Status::TimeOut);
}

#[test]
fn abandoned_task_stays_abandoned_as_the_clock_goes_on() {
    let mut task = Task::new(9, Priority::Normal, 0, Some(3));
    task.exec(1);
    task.exec(4);
    assert_eq!(task.status(), Status::TimeOut);
    for clock in 4..12 {
        task.exec(clock);
        assert_eq!(task.status(), Status::TimeOut);
    }
    assert_eq!(task.remaining(), 8);
    assert_eq!(task.progress(), &vec![1]);
}

#[test]
fn abandoned_task_run_at_an_earlier_clock_is_ready_again() {
    let mut task = Task::new(9, Priority::Normal, 0, Some(3));
    task.exec(4);
    assert_eq!(task.status(), Status::TimeOut);
    task.exec(2);
    assert_eq!(task.status(), Status::Ready);
    assert_eq!(task.remaining(), 8);
}

#[test]
fn set_schedule_time_stamps_the_task() {
    let mut task = Task::new(1, Priority::Low, 0, None);
    task.set_schedule_time(12);
    assert_eq!(task.schedule_time(), Some(12));
    assert_eq!(task.remaining(), 1);
    assert_eq!(task.status(), Status::Ready);
}

#[test]
fn export_of_a_served_task() {
    let mut task = Task::new(3, Priority::High, 2, None);
    task.set_schedule_time(4);
    task.exec(5);
    task.exec(8);
    let record = task.export();
    assert_eq!(record.service_start, 5);
    assert_eq!(record.service_end, 8);
    assert_eq!(record.arrival_time, 2);
    assert_eq!(record.schedule_time, 4);
    assert_eq!(record.service_time, 2);
    assert_eq!(record.exec_time, 3);
    assert_eq!(record.priority, "High");
    assert_eq!(record.status, "Ready");
}

#[test]
fn export_of_a_task_never_served() {
    let task = Task::new(3, Priority::Low, 2, Some(1));
    let record = task.export();
    assert_eq!(record.service_start, 0);
    assert_eq!(record.service_end, 0);
    assert_eq!(record.arrival_time, 2);
    assert_eq!(record.schedule_time, 0);
    assert_eq!(record.service_time, 0);
    assert_eq!(record.exec_time, 3);
    assert_eq!(record.priority, "Low");
    assert_eq!(record.status, "Ready");
}

#[test]
fn export_of_an_abandoned_task_ends_at_its_deadline() {
    let mut task = Task::new(6, Priority::Normal, 10, Some(7));
    task.exec(11);
    task.exec(12);
    task.exec(40);
    let record = task.export();
    assert_eq!(record.service_start, 11);
    assert_eq!(record.service_end, 17);
    assert_eq!(record.service_time, 2);
    assert_eq!(record.priority, "Normal");
    assert_eq!(record.status, "TimeOut");
}

#[test]
fn export_of_a_finished_task() {
    let mut task = Task::new(1, Priority::Normal, 0, None);
    task.exec(3);
    let record = task.export();
    assert_eq!(record.service_start, 3);
    assert_eq!(record.service_end, 3);
    assert_eq!(record.status, "Finished");
}

#[test]
fn labels() {
    assert_eq!(Priority::Low.label(), "Low");
    assert_eq!(Priority::Normal.label(), "Normal");
    assert_eq!(Priority::High.label(), "High");
    assert_eq!(Status::Ready.label(), "Ready");
    assert_eq!(Status::Finished.label(), "Finished");
    assert_eq!(Status::TimeOut.label(), "TimeOut");
}

#[test]
fn priorities_are_ordered() {
    assert!(Priority::Low < Priority::Normal);
    assert!(Priority::Normal < Priority::High);
    assert!(Priority::High > Priority::Low);
    assert_eq!(Priority::Normal.partial_cmp(&Priority::Normal), Some(Ordering::Equal));
    assert_eq!(Priority::Low.cmp(&Priority::High), Ordering::Less);
    assert_eq!(Priority::High.max(Priority::Normal), Priority::High);
    assert_eq!(Priority::Low.rank(), 0);
    assert_eq!(Priority::Normal.rank(), 1);
    assert_eq!(Priority::High.rank(), 2);
}

#[test]
fn tasks_compare_by_priority_then_by_earlier_arrival() {
    let low_early = Task::new(1, Priority::Low, 1, None);
    let high_late = Task::new(1, Priority::High, 10, None);
    let high_early = Task::new(1, Priority::High, 2, None);
    assert!(high_late > low_early);
    assert!(high_early > high_late);
    assert!(high_early > low_early);
    assert!(low_early < high_late);
    assert_eq!(high_early.partial_cmp(&high_late), Some(Ordering::Greater));
    assert_eq!(high_late.partial_cmp(&high_early), Some(Ordering::Less));
    assert!(high_early.outranks(&high_late));
    assert!(!high_late.outranks(&high_early));
    assert!(!low_early.outranks(&high_late));
}

#[test]
fn tasks_of_one_priority_and_arrival_compare_equal() {
    let a = Task::new(1, Priority::Normal, 5, None);
    let b = Task::new(9, Priority::Normal, 5, Some(3));
    assert_eq!(a.partial_cmp(&b), Some(Ordering::Equal));
    assert!(!a.outranks(&b));
    assert!(!b.outranks(&a));
    assert_ne!(a, b);
}

#[test]
fn priority_of_a_draw() {
    assert_eq!(Priority::from_draw(draw(0)), Priority::Low);
    assert_eq!(Priority::from_draw(draw(699)), Priority::Low);
    assert_eq!(Priority::from_draw(draw(700)), Priority::Normal);
    assert_eq!(Priority::from_draw(draw(899)), Priority::Normal);
    assert_eq!(Priority::from_draw(draw(900)), Priority::High);
    assert_eq!(Priority::from_draw(draw(999)), Priority::High);
}

#[test]
fn draw_lies_below_one() {
    assert!(Draw::new(999).is_some());
    assert!(Draw::new(1000).is_none());
    assert!(Draw::new(u16::MAX).is_none());
    assert_eq!(draw(250).thousandths(), 250);
    assert!(draw(250).below(251));
    assert!(!draw(250).below(250));
}

#[test]
fn task_definition_holds_its_parameters() {
    let def = TaskDefinition::new(4, Priority::High, Some(9));
    assert_eq!(def.exec_time, 4);
    assert_eq!(def.priority, Priority::High);
    assert_eq!(def.timeout, Some(9));
}
