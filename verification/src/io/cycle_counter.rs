//! A shift register of pending events, one bit per cycle of delay.

use vstd::prelude::*;

verus! {

/// Bits in `cycles` move one place up on every clock; `feed` bits re-enter at
/// every clock; bits outside `mask` drop out.
pub struct CycleCounter {
    pub mask: u16,
    pub cycles: u16,
    pub feed: u16,
}

impl CycleCounter {
    /// An empty pipeline with the given mask.
    pub fn new(mask: u16) -> (r: Self)
        ensures
            r.mask == mask,
            r.cycles == 0,
            r.feed == 0,
    {
        Self { mask, cycles: 0, feed: 0 }
    }

    /// Whether any of the `mask` bits is pending.
    pub fn has_cycle(&self, mask: u16) -> (r: bool)
        ensures
            r == (self.cycles & mask != 0),
    {
        self.cycles & mask != 0
    }

    /// Turns re-entry of the `mask` bits on or off.
    pub fn autofeed(&mut self, mask: u16, enabled: bool)
        ensures
            final(self).feed == (if enabled { old(self).feed | mask } else { old(self).feed & !mask }),
            final(self).cycles == old(self).cycles,
            final(self).mask == old(self).mask,
    {
        if enabled {
            self.feed = self.feed | mask;
        } else {
            self.feed = self.feed & !mask;
        }
    }

    /// Advances the pipeline by one cycle.
    pub fn clock(&mut self)
        ensures
            final(self).cycles == ((old(self).cycles << 1u16) & old(self).mask) | old(self).feed,
            final(self).feed == old(self).feed,
            final(self).mask == old(self).mask,
    {
        self.cycles = ((self.cycles << 1u16) & self.mask) | self.feed;
    }

    /// Makes the `mask` bits pending.
    pub fn feed(&mut self, mask: u16)
        ensures
            final(self).cycles == old(self).cycles | mask,
            final(self).feed == old(self).feed,
            final(self).mask == old(self).mask,
    {
        self.cycles = self.cycles | mask;
    }

    /// Drops the `mask` bits.
    pub fn remove(&mut self, mask: u16)
        ensures
            final(self).cycles == old(self).cycles & !mask,
            final(self).feed == old(self).feed,
            final(self).mask == old(self).mask,
    {
        self.cycles = self.cycles & !mask;
    }

    /// Empties the pipeline and stops re-entry.
    pub fn reset(&mut self)
        ensures
            final(self).cycles == 0,
            final(self).feed == 0,
            final(self).mask == old(self).mask,
    {
        self.cycles = 0;
        self.feed = 0;
    }
}

} // verus!
