use simul::context::Turn;
use simul::draw::Draw;
use simul::job_creator::{ArrivalSample, JobCreator};
use simul::job_dispatcher::{DefaultDispatcher, JobDispatcher, WeightedDispatcher};
use simul::queue::{Fifo, RRQueue, TaskQueue};
use simul::task::{Priority, Task, TaskDefinition};
use simul::QueueLayer;

fn draw(thousandths: u16) -> Draw {
    Draw::new(thousandths).expect("a draw below one")
}

fn task(exec_time: usize) -> Task {
    Task::new(exec_time, Priority::Normal, 0, None)
}

fn levels(at1: &[usize], at2: &[usize], at3: &[usize]) -> (RRQueue, RRQueue, Fifo) {
    let mut q1 = RRQueue::new(2);
    let mut q2 = RRQueue::new(4);
    let mut q3 = Fifo::new();
    for e in at1 {
        q1.push(task(*e));
    }
    for e in at2 {
        q2.push(task(*e));
    }
    for e in at3 {
        q3.push(task(*e));
    }
    (q1, q2, q3)
}

fn served(slot: &Option<(Turn, QueueLayer)>) -> Option<(usize, QueueLayer)> {
    slot.as_ref().map(|(turn, layer)| (turn.task().exec_time(), *layer))
}

#[test]
fn default_policy_prefers_the_first_level() {
    let (mut q1, mut q2, mut q3) = levels(&[1, 2], &[3], &[4]);
    let slot = DefaultDispatcher {}.dispatch(&mut q1, &mut q2, &mut q3, draw(950));
    assert_eq!(served(&slot), Some((1, QueueLayer::L1)));
    assert!(matches!(slot, Some((Turn::Bounded(ref ctx), _)) if ctx.deadline() == 2));
    assert_eq!((q1.len(), q2.len(), q3.len()), (1, 1, 1));
}

#[test]
fn default_policy_goes_down_the_levels() {
    let (mut q1, mut q2, mut q3) = levels(&[], &[3, 5], &[4, 6]);
    let slot = DefaultDispatcher {}.dispatch(&mut q1, &mut q2, &mut q3, draw(0));
    assert_eq!(served(&slot), Some((3, QueueLayer::L2)));
    assert!(matches!(slot, Some((Turn::Bounded(ref ctx), _)) if ctx.deadline() == 4));
    let slot = DefaultDispatcher {}.dispatch(&mut q1, &mut q2, &mut q3, draw(0));
    assert_eq!(served(&slot), Some((5, QueueLayer::L2)));
    let slot = DefaultDispatcher {}.dispatch(&mut q1, &mut q2, &mut q3, draw(0));
    assert_eq!(served(&slot), Some((6, QueueLayer::L3)));
    assert!(matches!(slot, Some((Turn::Unbounded(_), QueueLayer::L3))));
    let slot = DefaultDispatcher {}.dispatch(&mut q1, &mut q2, &mut q3, draw(0));
    assert_eq!(served(&slot), Some((4, QueueLayer::L3)));
    let slot = DefaultDispatcher {}.dispatch(&mut q1, &mut q2, &mut q3, draw(0));
    assert!(slot.is_none());
}

#[test]
fn weighted_policy_tries_only_the_drawn_level() {
    let (mut q1, mut q2, mut q3) = levels(&[1], &[2], &[]);
    let slot = WeightedDispatcher {}.dispatch(&mut q1, &mut q2, &mut q3, draw(950));
    assert!(slot.is_none());
    assert_eq!((q1.len(), q2.len(), q3.len()), (1, 1, 0));
}

#[test]
fn weighted_policy_serves_the_drawn_level() {
    let (mut q1, mut q2, mut q3) = levels(&[1], &[2], &[3]);
    let slot = WeightedDispatcher {}.dispatch(&mut q1, &mut q2, &mut q3, draw(950));
    assert_eq!(served(&slot), Some((3, QueueLayer::L3)));
    assert_eq!((q1.len(), q2.len(), q3.len()), (1, 1, 0));
    let slot = WeightedDispatcher {}.dispatch(&mut q1, &mut q2, &mut q3, draw(850));
    assert_eq!(served(&slot), Some((2, QueueLayer::L2)));
    let slot = WeightedDispatcher {}.dispatch(&mut q1, &mut q2, &mut q3, draw(850));
    assert!(slot.is_none());
    assert_eq!(q1.len(), 1);
    let slot = WeightedDispatcher {}.dispatch(&mut q1, &mut q2, &mut q3, draw(500));
    assert_eq!(served(&slot), Some((1, QueueLayer::L1)));
}

#[test]
fn weighted_policy_bounds_of_the_draw() {
    for (thousandths, layer) in [
        (0u16, QueueLayer::L1),
        (799, QueueLayer::L1),
        (800, QueueLayer::L2),
        (899, QueueLayer::L2),
        (900, QueueLayer::L3),
        (999, QueueLayer::L3),
    ] {
        let (mut q1, mut q2, mut q3) = levels(&[1], &[2], &[3]);
        let slot = WeightedDispatcher {}.dispatch(&mut q1, &mut q2, &mut q3, draw(thousandths));
        assert_eq!(slot.map(|(_, served)| served), Some(layer));
    }
}

#[test]
fn job_creator_emits_when_due_and_counts_down_between() {
    let mut creator = JobCreator::new();
    assert!(creator.is_due());
    let sample = ArrivalSample { interval: 2, exec_time: 7, timeout: Some(3), priority: draw(950) };
    assert_eq!(creator.poll(sample), Some(TaskDefinition::new(7, Priority::High, Some(3))));
    assert_eq!(creator.next_dispatch(), 2);
    assert!(!creator.is_due());
    let other = ArrivalSample { interval: 9, exec_time: 1, timeout: None, priority: draw(0) };
    assert_eq!(creator.poll(other), None);
    assert_eq!(creator.next_dispatch(), 1);
    assert_eq!(creator.poll(other), None);
    assert_eq!(creator.next_dispatch(), 0);
    assert!(creator.is_due());
    assert_eq!(creator.poll(other), Some(TaskDefinition::new(1, Priority::Low, None)));
    assert_eq!(creator.next_dispatch(), 9);
}

#[test]
fn job_creator_with_no_interval_emits_every_tick() {
    let mut creator = JobCreator::new();
    let sample = ArrivalSample { interval: 0, exec_time: 2, timeout: None, priority: draw(750) };
    for _ in 0..3 {
        assert_eq!(creator.poll(sample), Some(TaskDefinition::new(2, Priority::Normal, None)));
    }
}
