//! An interrupt request line shared by several sources; low while any source pulls it.

use vstd::prelude::*;
use crate::bits::{set_bit_u8, with_bit_u8};

verus! {

/// An open-collector interrupt line: bit `n` of `signal` is set while source `n` pulls it low.
pub struct IrqLine {
    pub kind: &'static str,
    pub signal: u8,
}

impl IrqLine {
    /// A released line.
    pub fn new(kind: &'static str) -> (r: Self)
        ensures
            r.kind == kind,
            r.signal == 0,
    {
        Self { kind, signal: 0 }
    }

    /// Whether any source pulls the line low.
    pub fn is_low(&self) -> (r: bool)
        ensures
            r == (self.signal != 0),
    {
        self.signal != 0
    }

    /// Releases the line for every source.
    pub fn reset(&mut self)
        ensures
            final(self).signal == 0,
            final(self).kind == old(self).kind,
    {
        self.signal = 0;
    }

    /// Source `source` pulls the line low (`value`) or releases it.
    pub fn set_low(&mut self, source: usize, value: bool)
        requires
            source < 8,
        ensures
            final(self).signal == with_bit_u8(old(self).signal, source as u8, value),
            final(self).kind == old(self).kind,
    {
        self.signal = set_bit_u8(self.signal, source, value);
    }
}

} // verus!
