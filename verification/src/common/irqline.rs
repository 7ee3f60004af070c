//! An interrupt request line with separate set and clear operations per source.

use vstd::prelude::*;
use crate::bits::{set_bit_u8, with_bit_u8};

verus! {

/// An open-collector interrupt line: bit `n` of `line` is set while source `n` pulls it low.
pub struct IrqLine {
    pub kind: &'static str,
    pub line: u8,
}

impl IrqLine {
    /// A released line.
    pub fn new(kind: &'static str) -> (r: IrqLine)
        ensures
            r.kind == kind,
            r.line == 0,
    {
        IrqLine { kind, line: 0 }
    }

    /// Source `source` releases the line.
    pub fn clear(&mut self, source: usize)
        requires
            source < 8,
        ensures
            final(self).line == with_bit_u8(old(self).line, source as u8, false),
            final(self).kind == old(self).kind,
    {
        self.line = set_bit_u8(self.line, source, false);
    }

    /// Whether any source pulls the line low.
    pub fn is_low(&self) -> (r: bool)
        ensures
            r == (self.line != 0),
    {
        self.line != 0
    }

    /// Releases the line for every source.
    pub fn reset(&mut self)
        ensures
            final(self).line == 0,
            final(self).kind == old(self).kind,
    {
        self.line = 0;
    }

    /// Source `source` pulls the line low.
    pub fn set(&mut self, source: usize)
        requires
            source < 8,
        ensures
            final(self).line == with_bit_u8(old(self).line, source as u8, true),
            final(self).kind == old(self).kind,
    {
        self.line = set_bit_u8(self.line, source, true);
    }
}

} // verus!
