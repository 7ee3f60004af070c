//! The system cycle counter.

use vstd::prelude::*;

verus! {

/// Counts elapsed system cycles; the count wraps around at 2^64.
pub struct Clock {
    pub counter: u64,
}

impl Clock {
    /// A clock at cycle zero.
    pub fn new() -> (c: Clock)
        ensures
            c.counter == 0,
    {
        Clock { counter: 0 }
    }

    /// Cycles elapsed since `prev`.
    pub fn elapsed(&self, prev: u64) -> (r: u64)
        requires
            prev <= self.counter,
        ensures
            r == self.counter - prev,
    {
        self.counter - prev
    }

    /// The current cycle count.
    pub fn get(&self) -> (r: u64)
        ensures
            r == self.counter,
    {
        self.counter
    }

    /// Sets the count back to zero.
    pub fn reset(&mut self)
        ensures
            final(self).counter == 0,
    {
        self.counter = 0;
    }

    /// Advances the count by one cycle.
    pub fn tick(&mut self)
        ensures
            final(self).counter == (old(self).counter + 1) % 0x1_0000_0000_0000_0000,
    {
        self.counter = self.counter.wrapping_add(1);
    }

    /// Advances the count by `delta` cycles.
    pub fn tick_delta(&mut self, delta: u64)
        ensures
            final(self).counter == (old(self).counter + delta) % 0x1_0000_0000_0000_0000,
    {
        self.counter = self.counter.wrapping_add(delta);
    }
}

} // verus!
