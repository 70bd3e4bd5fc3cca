//! Random draws from the unit interval, as the caller hands them in.

use vstd::prelude::*;

verus! {

/// Number of equal parts into which the unit interval is divided.
pub const DRAW_SCALE: u16 = 1000;

/// A draw from the unit interval `[0, 1)`, held in thousandths.
#[derive(Debug, Clone, Copy, PartialEq, Eq, Structural)]
pub struct Draw {
    thousandths: u16,
}

impl Draw {
    /// The draw in thousandths.
    pub closed spec fn value(self) -> nat {
        self.thousandths as nat
    }

    /// The draw lies in `[0, 1)`.
    pub open spec fn wf(self) -> bool {
        self.value() < DRAW_SCALE
    }

    /// The draw `thousandths / 1000`, if that lies in `[0, 1)`.
    pub fn new(thousandths: u16) -> (draw: Option<Draw>)
        ensures
            draw is Some <==> thousandths < DRAW_SCALE,
            draw matches Some(d) ==> d.value() == thousandths && d.wf(),
    {
        if thousandths < DRAW_SCALE {
            Some(Draw { thousandths })
        } else {
            None
        }
    }

    pub fn thousandths(&self) -> (v: u16)
        ensures
            v == self.value(),
    {
        self.thousandths
    }

    /// Whether the draw falls below `bound / 1000`.
    pub fn below(&self, bound: u16) -> (b: bool)
        ensures
            b == (self.value() < bound),
    {
        self.thousandths < bound
    }
}

} // verus!
