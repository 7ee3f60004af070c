//! The CIA interrupt control register: latched events and their enable mask.

use vstd::prelude::*;
use crate::bits::{get_bit_u8, set_bit_u8, with_bit_u8};
use crate::common::irq_control::updated_mask;

verus! {

/// Interrupt events latched in `data`, enabled by `mask`.
pub struct Icr {
    pub data: u8,
    pub mask: u8,
}

impl Icr {
    /// An interrupt is requested when an enabled event is latched.
    pub open spec fn requested(&self) -> bool {
        self.mask & self.data != 0
    }

    /// No events, nothing enabled.
    pub fn new() -> (r: Icr)
        ensures
            r.data == 0,
            r.mask == 0,
    {
        Icr { data: 0, mask: 0 }
    }

    /// Forgets all latched events.
    pub fn clear(&mut self)
        ensures
            final(self).data == 0,
            final(self).mask == old(self).mask,
    {
        self.data = 0;
    }

    /// Forgets the latched events given as bits of `events`.
    pub fn clear_events(&mut self, events: u8)
        ensures
            final(self).data == old(self).data & !events,
            final(self).mask == old(self).mask,
    {
        self.data = self.data & !events;
    }

    /// The data register as read: events with bit 7 telling whether an interrupt is requested.
    pub fn get_data(&self) -> (r: u8)
        ensures
            r == with_bit_u8(self.data, 7, self.requested()),
    {
        let data = self.data;
        set_bit_u8(data, 7, self.get_interrupt_request())
    }

    /// Whether an enabled event is latched.
    pub fn get_interrupt_request(&self) -> (r: bool)
        ensures
            r == self.requested(),
    {
        (self.mask & self.data) != 0
    }

    /// The enable mask.
    pub fn get_mask(&self) -> (r: u8)
        ensures
            r == self.mask,
    {
        self.mask
    }

    /// Latches event `bit`.
    pub fn set_event(&mut self, bit: u8)
        requires
            bit < 8,
        ensures
            final(self).data == with_bit_u8(old(self).data, bit, true),
            final(self).mask == old(self).mask,
    {
        self.data = set_bit_u8(self.data, bit as usize, true);
    }

    /// No events, nothing enabled.
    pub fn reset(&mut self)
        ensures
            final(self).data == 0,
            final(self).mask == 0,
    {
        self.data = 0;
        self.mask = 0;
    }

    /// Writes the mask register: bit 7 selects whether the written bits set or clear.
    pub fn update_mask(&mut self, mask: u8)
        ensures
            final(self).data == old(self).data,
            final(self).mask == updated_mask(old(self).mask, mask),
    {
        if get_bit_u8(mask, 7) {
            self.mask = self.mask | (mask & 0x1f);
        } else {
            self.mask = self.mask & !(mask & 0x1f);
        }
    }
}

} // verus!
