//! The I/O area at 0xd000-0xdfff: the video chip, sound, colour RAM, the two
//! CIAs and the expansion port's two I/O pages.

use vstd::prelude::*;
use crate::common::traits::Chip;
use super::cia::{cia_read, cia_written, Cia};

verus! {

/// The chips behind the I/O area.
pub struct DeviceIo<V: Chip> {
    pub cia1: Cia,
    pub cia2: Cia,
    pub vic: V,
}

/// The video chip register an I/O address selects.
pub open spec fn vic_reg(address: u16) -> u8 {
    (address & 0x003f) as u8
}

/// The CIA register an I/O address selects.
pub open spec fn cia_reg(address: u16) -> u8 {
    (address & 0x000f) as u8
}

/// The register an address selects is one of a CIA's sixteen.
proof fn lemma_register_in_range(address: u16)
    ensures
        address & 0x000f < 16,
{
    assert(address & 0x000f < 16) by (bit_vector);
}

impl<V: Chip> DeviceIo<V> {
    /// The I/O area over the given chips.
    pub fn new(cia1: Cia, cia2: Cia, vic: V) -> (r: Self)
        ensures
            r.cia1 == cia1,
            r.cia2 == cia2,
            r.vic == vic,
    {
        DeviceIo { cia1, cia2, vic }
    }

    /// Whether the video chip can serve the register `address` selects.
    pub open spec fn vic_ready(&self, address: u16) -> bool {
        0xd000 <= address <= 0xd3ff ==> self.vic.inv() && V::is_reg(vic_reg(address))
    }

    /// Reads the I/O area: the video chip at 0xd000-0xd3ff, the CIAs at
    /// 0xdc00 and 0xdd00 (16 registers repeated over each page), and 0 for the
    /// sound chip, colour RAM and the expansion I/O pages.
    pub fn read(&mut self, address: u16) -> (r: u8)
        requires
            0xd000 <= address,
            old(self).vic_ready(address),
        ensures
            0xd000 <= address <= 0xd3ff ==> final(self).vic.inv() && final(self).cia1 == old(
                self,
            ).cia1 && final(self).cia2 == old(self).cia2,
            (0xd400 <= address <= 0xdbff || 0xde00 <= address) ==> r == 0 && *final(self)
                == *old(self),
            0xdc00 <= address <= 0xdcff ==> (final(self).cia1, r) == cia_read(
                old(self).cia1,
                cia_reg(address),
            ) && final(self).cia2 == old(self).cia2 && final(self).vic == old(self).vic,
            0xdd00 <= address <= 0xddff ==> (final(self).cia2, r) == cia_read(
                old(self).cia2,
                cia_reg(address),
            ) && final(self).cia1 == old(self).cia1 && final(self).vic == old(self).vic,
    {
        if address <= 0xd3ff {
            self.vic.read((address & 0x003f) as u8)
        } else if address <= 0xdbff {
            0x00
        } else if address <= 0xdcff {
            proof {
                lemma_register_in_range(address);
            }
            self.cia1.read((address & 0x000f) as u8)
        } else if address <= 0xddff {
            proof {
                lemma_register_in_range(address);
            }
            self.cia2.read((address & 0x000f) as u8)
        } else {
            0x00
        }
    }

    /// Writes the I/O area; writes to the sound chip, colour RAM and the
    /// expansion I/O pages are dropped.
    pub fn write(&mut self, address: u16, value: u8)
        requires
            0xd000 <= address,
            old(self).vic_ready(address),
            old(self).cia1.wf(),
            old(self).cia2.wf(),
        ensures
            0xd000 <= address <= 0xd3ff ==> final(self).vic.inv() && final(self).cia1 == old(
                self,
            ).cia1 && final(self).cia2 == old(self).cia2,
            (0xd400 <= address <= 0xdbff || 0xde00 <= address) ==> *final(self) == *old(self),
            0xdc00 <= address <= 0xdcff ==> final(self).cia1 == cia_written(
                old(self).cia1,
                cia_reg(address),
                value,
            ) && final(self).cia2 == old(self).cia2 && final(self).vic == old(self).vic,
            0xdd00 <= address <= 0xddff ==> final(self).cia2 == cia_written(
                old(self).cia2,
                cia_reg(address),
                value,
            ) && final(self).cia1 == old(self).cia1 && final(self).vic == old(self).vic,
            final(self).cia1.wf(),
            final(self).cia2.wf(),
    {
        if address <= 0xd3ff {
            self.vic.write((address & 0x003f) as u8, value);
        } else if address <= 0xdbff {
        } else if address <= 0xdcff {
            proof {
                lemma_register_in_range(address);
            }
            self.cia1.write((address & 0x000f) as u8, value);
        } else if address <= 0xddff {
            proof {
                lemma_register_in_range(address);
            }
            self.cia2.write((address & 0x000f) as u8, value);
        }
    }
}

} // verus!
