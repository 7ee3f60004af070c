//! The clock signal a CPU drives while it works: one tick per elapsed cycle.

use vstd::prelude::*;

verus! {

/// Receives one call per elapsed clock cycle.
pub trait Tick {
    /// The number of cycles ticked so far.
    spec fn ticks(&self) -> nat;

    /// Marks one elapsed clock cycle.
    fn tick(&mut self)
        ensures
            final(self).ticks() == old(self).ticks() + 1,
    ;
}

/// Counts clock cycles: `cycles` wraps at 2^64, the count behind it does not.
pub struct TickCounter {
    pub cycles: u64,
    pub total: Ghost<nat>,
}

impl TickCounter {
    /// A counter at zero.
    pub fn new() -> (r: TickCounter)
        ensures
            r.cycles == 0,
            r.ticks() == 0,
    {
        TickCounter { cycles: 0, total: Ghost(0) }
    }

    /// The cycles counted so far (modulo 2^64).
    pub fn get(&self) -> (r: u64)
        ensures
            r == self.cycles,
    {
        self.cycles
    }
}

impl Tick for TickCounter {
    open spec fn ticks(&self) -> nat {
        self.total@
    }

    fn tick(&mut self)
        ensures
            final(self).cycles == old(self).cycles.wrapping_add(1),
    {
        self.cycles = self.cycles.wrapping_add(1);
        self.total = Ghost(self.total@ + 1);
    }
}

} // verus!
