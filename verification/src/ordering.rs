//! The order of priorities and of tasks.

use crate::task::{Priority, Task};
use core::cmp::Ordering;
use vstd::prelude::*;
use vstd::std_specs::cmp::PartialOrdSpecImpl;

verus! {

impl PartialOrd for Priority {
    fn partial_cmp(&self, other: &Priority) -> (r: Option<Ordering>) {
        let mine = self.rank();
        let theirs = other.rank();
        if mine < theirs {
            Some(Ordering::Less)
        } else if mine == theirs {
            Some(Ordering::Equal)
        } else {
            Some(Ordering::Greater)
        }
    }
}

impl PartialOrdSpecImpl for Priority {
    open spec fn obeys_partial_cmp_spec() -> bool {
        true
    }

    /// `Low < Normal < High`.
    open spec fn partial_cmp_spec(&self, other: &Priority) -> Option<Ordering> {
        if self.level() < other.level() {
            Some(Ordering::Less)
        } else if self.level() == other.level() {
            Some(Ordering::Equal)
        } else {
            Some(Ordering::Greater)
        }
    }
}

impl PartialOrd for Task {
    fn partial_cmp(&self, other: &Task) -> (r: Option<Ordering>) {
        if self.outranks(other) {
            Some(Ordering::Greater)
        } else if other.outranks(self) {
            Some(Ordering::Less)
        } else {
            Some(Ordering::Equal)
        }
    }
}

impl PartialOrdSpecImpl for Task {
    open spec fn obeys_partial_cmp_spec() -> bool {
        true
    }

    /// The greater task is the one that leaves the admission queue first:
    /// tasks compare by priority, and tasks of one priority by arrival, the
    /// earlier arrival being the greater.
    open spec fn partial_cmp_spec(&self, other: &Task) -> Option<Ordering> {
        if self@.outranks(other@) {
            Some(Ordering::Greater)
        } else if other@.outranks(self@) {
            Some(Ordering::Less)
        } else {
            Some(Ordering::Equal)
        }
    }
}

} // verus!
