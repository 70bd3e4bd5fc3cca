//! Dispatch policies: which feedback level is served when the running slot
//! is free.

use crate::context::{Context, Turn, TurnView};
use crate::draw::Draw;
use crate::queue::{Fifo, RRQueue, TaskQueue};
use crate::task::TaskView;
use crate::QueueLayer;
use vstd::prelude::*;

verus! {

/// Mathematical model of the three feedback levels: the tasks that wait at
/// each, in the order pushed, and the time slices of the two round-robin
/// levels.
pub struct Levels {
    pub q1: Seq<TaskView>,
    pub quantum1: usize,
    pub q2: Seq<TaskView>,
    pub quantum2: usize,
    pub q3: Seq<TaskView>,
}

impl Levels {
    /// The tasks that wait at `layer`.
    pub open spec fn waiting(self, layer: QueueLayer) -> Seq<TaskView> {
        match layer {
            QueueLayer::L1 => self.q1,
            QueueLayer::L2 => self.q2,
            QueueLayer::L3 => self.q3,
        }
    }

    /// The number of tasks that wait at all levels together.
    pub open spec fn resident(self) -> nat {
        self.q1.len() + self.q2.len() + self.q3.len()
    }

    /// The turn that the task leaving `layer` next is given: the two
    /// round-robin levels hand out their oldest task with their time slice,
    /// the last level its newest task without one.
    pub open spec fn next_turn(self, layer: QueueLayer) -> TurnView {
        match layer {
            QueueLayer::L1 => TurnView { task: self.q1.first(), budget: Some(self.quantum1) },
            QueueLayer::L2 => TurnView { task: self.q2.first(), budget: Some(self.quantum2) },
            QueueLayer::L3 => TurnView { task: self.q3.last(), budget: None },
        }
    }

    /// The levels after the task that leaves `layer` next has left.
    pub open spec fn without_next(self, layer: QueueLayer) -> Levels {
        match layer {
            QueueLayer::L1 => Levels { q1: self.q1.drop_first(), ..self },
            QueueLayer::L2 => Levels { q2: self.q2.drop_first(), ..self },
            QueueLayer::L3 => Levels { q3: self.q3.drop_last(), ..self },
        }
    }

    /// The levels with `task` pushed at `layer`.
    pub open spec fn with_pushed(self, layer: QueueLayer, task: TaskView) -> Levels {
        match layer {
            QueueLayer::L1 => Levels { q1: self.q1.push(task), ..self },
            QueueLayer::L2 => Levels { q2: self.q2.push(task), ..self },
            QueueLayer::L3 => Levels { q3: self.q3.push(task), ..self },
        }
    }

    /// What serving `choice` yields: the turn of the task that leaves the
    /// chosen level, tagged with the level. Where no level is chosen, or
    /// nothing waits at the chosen one, nothing is dispatched.
    pub open spec fn dispatched(self, choice: Option<QueueLayer>) -> Option<
        (TurnView, QueueLayer),
    > {
        match choice {
            Some(layer) if self.waiting(layer).len() > 0 => Some((self.next_turn(layer), layer)),
            _ => None,
        }
    }

    /// The levels after `choice` was served.
    pub open spec fn after_dispatch(self, choice: Option<QueueLayer>) -> Levels {
        match choice {
            Some(layer) if self.waiting(layer).len() > 0 => self.without_next(layer),
            _ => self,
        }
    }
}

/// The model of three queues taken together.
pub open spec fn levels_of(q1: RRQueue, q2: RRQueue, q3: Fifo) -> Levels {
    Levels {
        q1: q1.tasks(),
        quantum1: q1.slice(),
        q2: q2.tasks(),
        quantum2: q2.slice(),
        q3: q3.tasks(),
    }
}

/// The model of what stands in the running slot.
pub open spec fn slot_view(slot: Option<(Turn, QueueLayer)>) -> Option<(TurnView, QueueLayer)> {
    match slot {
        Some((turn, layer)) => Some((turn.turn(), layer)),
        None => None,
    }
}

/// A policy that picks the feedback level to serve when the running slot is
/// free.
pub trait JobDispatcher {
    /// The level that the policy serves, given its draw and the number of
    /// tasks that wait at each level; `None` where it serves none.
    spec fn select(draw: Draw, waiting1: nat, waiting2: nat, waiting3: nat) -> Option<QueueLayer>;

    /// Serves the selected level: takes the task that leaves it next out of
    /// its queue and returns the task's turn with the level. Where the
    /// selected level is empty, or none is selected, no queue changes and
    /// nothing is returned.
    fn dispatch(&self, q1: &mut RRQueue, q2: &mut RRQueue, q3: &mut Fifo, draw: Draw) -> (slot:
        Option<(Turn, QueueLayer)>)
        ensures
            slot_view(slot) == levels_of(*old(q1), *old(q2), *old(q3)).dispatched(
                Self::select(
                    draw,
                    old(q1).tasks().len(),
                    old(q2).tasks().len(),
                    old(q3).tasks().len(),
                ),
            ),
            levels_of(*final(q1), *final(q2), *final(q3)) == levels_of(
                *old(q1),
                *old(q2),
                *old(q3),
            ).after_dispatch(
                Self::select(
                    draw,
                    old(q1).tasks().len(),
                    old(q2).tasks().len(),
                    old(q3).tasks().len(),
                ),
            ),
    ;
}

/// Strict priority of the levels: the first level, in the order L1, L2, L3,
/// at which a task waits. The draw plays no part.
#[derive(Debug, Clone, Copy)]
pub struct DefaultDispatcher {}

impl JobDispatcher for DefaultDispatcher {
    open spec fn select(draw: Draw, waiting1: nat, waiting2: nat, waiting3: nat) -> Option<
        QueueLayer,
    > {
        if waiting1 > 0 {
            Some(QueueLayer::L1)
        } else if waiting2 > 0 {
            Some(QueueLayer::L2)
        } else if waiting3 > 0 {
            Some(QueueLayer::L3)
        } else {
            None
        }
    }

    fn dispatch(&self, q1: &mut RRQueue, q2: &mut RRQueue, q3: &mut Fifo, draw: Draw) -> (slot:
        Option<(Turn, QueueLayer)>) {
        if let Some(ctx) = q1.pop() {
            Some((Turn::Bounded(ctx), QueueLayer::L1))
        } else if let Some(ctx) = q2.pop() {
            Some((Turn::Bounded(ctx), QueueLayer::L2))
        } else if let Some(ctx) = q3.pop() {
            Some((Turn::Unbounded(ctx), QueueLayer::L3))
        } else {
            None
        }
    }
}

/// Draws below this many thousandths make the weighted policy serve L1.
pub const L1_BELOW: u16 = 800;

/// Draws below this many thousandths, and not for L1, make it serve L2.
pub const L2_BELOW: u16 = 900;

/// The level that a draw stands for: L1 on `[0, 0.8)`, L2 on `[0.8, 0.9)`,
/// L3 from `0.9` on.
pub open spec fn drawn_layer(draw: Draw) -> QueueLayer {
    if draw.value() < L1_BELOW {
        QueueLayer::L1
    } else if draw.value() < L2_BELOW {
        QueueLayer::L2
    } else {
        QueueLayer::L3
    }
}

/// Random choice of the level: the draw alone decides which level is tried,
/// and where nothing waits there, no other level is tried in its place.
#[derive(Debug, Clone, Copy)]
pub struct WeightedDispatcher {}

impl JobDispatcher for WeightedDispatcher {
    open spec fn select(draw: Draw, waiting1: nat, waiting2: nat, waiting3: nat) -> Option<
        QueueLayer,
    > {
        Some(drawn_layer(draw))
    }

    fn dispatch(&self, q1: &mut RRQueue, q2: &mut RRQueue, q3: &mut Fifo, draw: Draw) -> (slot:
        Option<(Turn, QueueLayer)>) {
        if draw.below(L1_BELOW) {
            if let Some(ctx) = q1.pop() {
                return Some((Turn::Bounded(ctx), QueueLayer::L1));
            }
        } else if draw.below(L2_BELOW) {
            if let Some(ctx) = q2.pop() {
                return Some((Turn::Bounded(ctx), QueueLayer::L2));
            }
        } else if let Some(ctx) = q3.pop() {
            return Some((Turn::Unbounded(ctx), QueueLayer::L3));
        }
        None
    }
}

/// While a task waits at L1, the default policy serves L1, whatever waits at
/// the other levels and whatever the draw.
pub proof fn lemma_default_prefers_first_level(levels: Levels, draw: Draw)
    requires
        levels.q1.len() > 0,
    ensures
        levels.dispatched(
            DefaultDispatcher::select(draw, levels.q1.len(), levels.q2.len(), levels.q3.len()),
        ) == Some((levels.next_turn(QueueLayer::L1), QueueLayer::L1)),
{
}

/// The default policy dispatches whenever a task waits at any level.
pub proof fn lemma_default_serves_any_waiting(levels: Levels, draw: Draw)
    ensures
        levels.dispatched(
            DefaultDispatcher::select(draw, levels.q1.len(), levels.q2.len(), levels.q3.len()),
        ) is Some <==> levels.resident() > 0,
{
}

/// The weighted policy never falls back: it dispatches from the level that
/// the draw stands for or not at all, and where nothing waits at that level
/// it leaves every level as it was.
pub proof fn lemma_weighted_never_falls_back(levels: Levels, draw: Draw)
    ensures
        ({
            let choice = WeightedDispatcher::select(
                draw,
                levels.q1.len(),
                levels.q2.len(),
                levels.q3.len(),
            );
            let layer = drawn_layer(draw);
            &&& levels.dispatched(choice) matches Some((_, served)) ==> served == layer
            &&& levels.waiting(layer).len() == 0 ==> levels.dispatched(choice) is None
                && levels.after_dispatch(choice) == levels
            &&& levels.waiting(layer).len() > 0 ==> levels.dispatched(choice) == Some(
                (levels.next_turn(layer), layer),
            )
        }),
{
}

} // verus!
