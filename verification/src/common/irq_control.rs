//! The interrupt control register pair of a chip: event data and enable mask.

use vstd::prelude::*;
use crate::bits::{bit_of_u8, get_bit_u8, set_bit_u8, with_bit_u8};

verus! {

/// The value the mask takes when `mask` is written to the mask register:
/// with bit 7 set, the written low five bits are set; with bit 7 clear, they
/// are cleared; other mask bits stay.
pub open spec fn updated_mask(current: u8, mask: u8) -> u8 {
    if bit_of_u8(mask, 7) {
        current | (mask & 0x1f)
    } else {
        current & !(mask & 0x1f)
    }
}

/// Interrupt events latched in `data`, enabled by `mask`.
pub struct IrqControl {
    pub data: u8,
    pub mask: u8,
}

impl IrqControl {
    /// An interrupt is requested when an enabled event is latched.
    pub open spec fn triggered(&self) -> bool {
        self.mask & self.data != 0
    }

    /// No events, nothing enabled.
    pub fn new() -> (r: Self)
        ensures
            r.data == 0,
            r.mask == 0,
    {
        Self { data: 0, mask: 0 }
    }

    /// Forgets all latched events.
    pub fn clear(&mut self)
        ensures
            final(self).data == 0,
            final(self).mask == old(self).mask,
    {
        self.data = 0;
    }

    /// Forgets the latched events given as bits of `events`.
    pub fn clear_events(&mut self, events: u8)
        ensures
            final(self).data == old(self).data & !events,
            final(self).mask == old(self).mask,
    {
        self.data = self.data & (!events);
    }

    /// The data register as read: the latched events with bit 7 telling
    /// whether an interrupt is requested.
    pub fn get_data(&self) -> (r: u8)
        ensures
            r == with_bit_u8(self.data, 7, self.triggered()),
    {
        let data = self.data;
        set_bit_u8(data, 7, self.is_triggered())
    }

    /// The enable mask.
    pub fn get_mask(&self) -> (r: u8)
        ensures
            r == self.mask,
    {
        self.mask
    }

    /// The latched events without the request bit.
    pub fn get_raw_data(&self) -> (r: u8)
        ensures
            r == self.data,
    {
        self.data
    }

    /// Whether an enabled event is latched.
    pub fn is_triggered(&self) -> (r: bool)
        ensures
            r == self.triggered(),
    {
        (self.mask & self.data) != 0
    }

    /// No events, nothing enabled.
    pub fn reset(&mut self)
        ensures
            final(self).data == 0,
            final(self).mask == 0,
    {
        self.data = 0;
        self.mask = 0;
    }

    /// Latches event `bit`.
    pub fn set_event(&mut self, bit: usize)
        requires
            bit < 8,
        ensures
            final(self).data == with_bit_u8(old(self).data, bit as u8, true),
            final(self).mask == old(self).mask,
    {
        self.data = set_bit_u8(self.data, bit, true);
    }

    /// Replaces the enable mask.
    pub fn set_mask(&mut self, mask: u8)
        ensures
            final(self).data == old(self).data,
            final(self).mask == mask,
    {
        self.mask = mask;
    }

    /// Writes the mask register: bit 7 selects whether the written bits set or clear.
    pub fn update_mask(&mut self, mask: u8)
        ensures
            final(self).data == old(self).data,
            final(self).mask == updated_mask(old(self).mask, mask),
    {
        if get_bit_u8(mask, 7) {
            self.mask = self.mask | (mask & 0x1f);
        } else {
            self.mask = self.mask & !(mask & 0x1f);
        }
    }
}

/// Enabling sources and then disabling the same sources leaves them
/// disabled and every other source as it was.
pub proof fn law_mask_enable_disable(current: u8, sources: u8)
    ensures
        updated_mask(updated_mask(current, sources | 0x80), sources & 0x7f) == current & !(sources
            & 0x1f),
{
    assert(bit_of_u8(sources | 0x80, 7) && !bit_of_u8(sources & 0x7f, 7) && (current | ((sources
        | 0x80) & 0x1f)) & !((sources & 0x7f) & 0x1f) == current & !(sources & 0x1f))
        by (bit_vector);
}

/// A latched event whose source is enabled requests an interrupt.
pub proof fn law_enabled_event_requests(data: u8, mask: u8, bit: u8)
    requires
        bit < 8,
        bit_of_u8(mask, bit),
    ensures
        mask & with_bit_u8(data, bit, true) != 0,
{
    assert(bit_of_u8(mask, bit) ==> mask & with_bit_u8(data, bit, true) != 0) by (bit_vector)
        requires
            bit < 8,
    ;
}

} // verus!
