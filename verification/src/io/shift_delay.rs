//! A delay line of `delay` cycles built on a 16-bit shift register.

use vstd::prelude::*;
use crate::bits::{bit_of_u16, get_bit_u16, set_bit_u16, with_bit_u16};

verus! {

/// The mask with the low `n` bits set.
pub open spec fn low_mask(n: u16) -> u16 {
    if n >= 16 { 0xffff } else { ((1u32 << n) - 1) as u16 }
}

/// A shift register whose bit `delay` marks a completed delay.
pub struct ShiftDelay {
    pub delay: usize,
    pub mask: u16,
    pub counter: u16,
    pub feed: u16,
}

impl ShiftDelay {
    /// A delay line of `delay` cycles: bits 0 to `delay` are kept.
    pub fn new(delay: usize) -> (r: ShiftDelay)
        requires
            delay < 16,
        ensures
            r.delay == delay,
            r.mask == low_mask((delay + 1) as u16),
            r.counter == 0,
            r.feed == 0,
    {
        let mut mask: u16 = 0;
        let mut i: usize = 0;
        assert(low_mask(0u16) == 0u16) by (bit_vector);
        while i < delay + 1
            invariant
                delay < 16,
                i <= delay + 1,
                mask == low_mask(i as u16),
            decreases delay + 1 - i,
        {
            let old_mask = mask;
            mask = set_bit_u16(mask, i, true);
            let k = i as u16;
            assert(mask == low_mask((k + 1) as u16)) by (bit_vector)
                requires
                    k < 16,
                    old_mask == (if k >= 16 { 0xffffu16 } else { ((1u32 << k) - 1) as u16 }),
                    mask == old_mask | (1u16 << k),
            ;
            i = i + 1;
        }
        ShiftDelay { delay, mask, counter: 0, feed: 0 }
    }

    /// Whether bit `cycle` is set.
    pub fn has_cycle(&self, cycle: usize) -> (r: bool)
        requires
            cycle < 16,
        ensures
            r == bit_of_u16(self.counter, cycle as u16),
    {
        get_bit_u16(self.counter, cycle)
    }

    /// Whether the delay has elapsed.
    pub fn is_done(&self) -> (r: bool)
        requires
            self.delay < 16,
        ensures
            r == bit_of_u16(self.counter, self.delay as u16),
    {
        get_bit_u16(self.counter, self.delay)
    }

    /// Turns re-entry of bit `cycle` on or off.
    pub fn set_feed(&mut self, cycle: usize, value: bool)
        requires
            cycle < 16,
        ensures
            final(self).feed == with_bit_u16(old(self).feed, cycle as u16, value),
            final(self).counter == old(self).counter,
            final(self).mask == old(self).mask,
            final(self).delay == old(self).delay,
    {
        self.feed = set_bit_u16(self.feed, cycle, value);
    }

    /// Advances the line by one cycle.
    pub fn clock(&mut self)
        ensures
            final(self).counter == ((old(self).counter << 1u16) & old(self).mask) | old(self).feed,
            final(self).feed == old(self).feed,
            final(self).mask == old(self).mask,
            final(self).delay == old(self).delay,
    {
        self.counter = ((self.counter << 1u16) & self.mask) | self.feed;
    }

    /// Sets bit `cycle`.
    pub fn feed(&mut self, cycle: usize)
        requires
            cycle < 16,
        ensures
            final(self).counter == with_bit_u16(old(self).counter, cycle as u16, true),
            final(self).feed == old(self).feed,
            final(self).mask == old(self).mask,
            final(self).delay == old(self).delay,
    {
        self.counter = set_bit_u16(self.counter, cycle, true);
    }

    /// Clears bit `cycle`.
    pub fn remove(&mut self, cycle: usize)
        requires
            cycle < 16,
        ensures
            final(self).counter == with_bit_u16(old(self).counter, cycle as u16, false),
            final(self).feed == old(self).feed,
            final(self).mask == old(self).mask,
            final(self).delay == old(self).delay,
    {
        self.counter = set_bit_u16(self.counter, cycle, false);
    }

    /// Empties the line and stops re-entry.
    pub fn reset(&mut self)
        ensures
            final(self).counter == 0,
            final(self).feed == 0,
            final(self).mask == old(self).mask,
            final(self).delay == old(self).delay,
    {
        self.counter = 0;
        self.feed = 0;
    }

    /// Starts a delay: sets bit 0.
    pub fn start(&mut self)
        ensures
            final(self).counter == with_bit_u16(old(self).counter, 0, true),
            final(self).feed == old(self).feed,
            final(self).mask == old(self).mask,
            final(self).delay == old(self).delay,
    {
        self.feed(0);
    }
}

} // verus!
