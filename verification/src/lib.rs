//! A tick-driven simulator of a multi-level feedback queue scheduler.
//!
//! Jobs wait in a priority-ordered admission queue, are promoted in batches
//! into the first of three feedback levels, and are executed one tick at a
//! time until they finish or are abandoned. All randomness is supplied by the
//! caller, so every operation here is a function of its arguments.

use vstd::prelude::*;

pub mod admission;
pub mod context;
pub mod draw;
pub mod error;
pub mod job_creator;
pub mod job_dispatcher;
pub mod laws;
pub mod model;
pub mod ordering;
pub mod queue;
pub mod scheduler;
pub mod task;

pub use error::SchedulerError;
pub use job_dispatcher::JobDispatcher;
pub use scheduler::Scheduler;

verus! {

/// The three feedback levels, from the first served to the last.
#[derive(Debug, Clone, Copy, PartialEq, Eq, Structural)]
pub enum QueueLayer {
    L1,
    L2,
    L3,
}

} // verus!
