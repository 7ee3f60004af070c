//! An interrupt line shared by several sources, each holding its own bit.

use vstd::prelude::*;

verus! {

/// A device that can pull an interrupt line.
#[derive(Clone, Copy, PartialEq, Eq, Structural)]
pub enum Source {
    Cia,
    Vic,
}

/// The bit a source holds on the line.
pub open spec fn source_mask(source: Source) -> u8 {
    match source {
        Source::Cia => 0x01,
        Source::Vic => 0x02,
    }
}

/// The kind of interrupt a line raises.
#[derive(Clone, Copy, PartialEq, Eq, Structural)]
pub enum Type {
    Break,
    Irq,
    Nmi,
    Reset,
}

/// The address of the vector each kind of interrupt jumps through.
pub open spec fn type_vector(kind: Type) -> u16 {
    match kind {
        Type::Break => 0xfffe,
        Type::Irq => 0xfffe,
        Type::Nmi => 0xfffa,
        Type::Reset => 0xfffc,
    }
}

impl Type {
    /// The address of this interrupt's vector.
    pub fn vector(&self) -> (r: u16)
        ensures
            r == type_vector(*self),
    {
        match self {
            Type::Break => 0xfffe,
            Type::Irq => 0xfffe,
            Type::Nmi => 0xfffa,
            Type::Reset => 0xfffc,
        }
    }
}

/// An interrupt line: low while any source's bit is set.
pub struct InterruptLine {
    pub kind: Type,
    pub line: u8,
}

impl InterruptLine {
    /// A released line of the given kind.
    pub fn new(kind: Type) -> (r: InterruptLine)
        ensures
            r.kind == kind,
            r.line == 0,
    {
        InterruptLine { kind, line: 0 }
    }

    /// `source` releases its hold on the line.
    pub fn clear(&mut self, source: Source)
        ensures
            final(self).line == old(self).line & !source_mask(source),
            final(self).kind == old(self).kind,
    {
        let mask: u8 = match source {
            Source::Cia => 0x01,
            Source::Vic => 0x02,
        };
        self.line = self.line & !mask;
    }

    /// Whether some source holds the line low.
    pub fn is_low(&self) -> (r: bool)
        ensures
            r == (self.line != 0),
    {
        self.line != 0
    }

    /// Releases the line for every source.
    pub fn reset(&mut self)
        ensures
            final(self).line == 0,
            final(self).kind == old(self).kind,
    {
        self.line = 0;
    }

    /// `source` pulls the line low.
    pub fn set(&mut self, source: Source)
        ensures
            final(self).line == old(self).line | source_mask(source),
            final(self).kind == old(self).kind,
    {
        let mask: u8 = match source {
            Source::Cia => 0x01,
            Source::Vic => 0x02,
        };
        self.line = self.line | mask;
    }
}

/// Setting a source then clearing it leaves the line as if only the clear had happened.
pub proof fn law_set_then_clear(line: u8, source: Source)
    ensures
        (line | source_mask(source)) & !source_mask(source) == line & !source_mask(source),
{
    let m = source_mask(source);
    assert((line | m) & !m == line & !m) by (bit_vector);
}

/// A line is low after a set, and a line held by one source alone is released
/// by that source's clear.
pub proof fn law_set_low_clear_released(source: Source)
    ensures
        (0u8 | source_mask(source)) != 0,
        (0u8 | source_mask(source)) & !source_mask(source) == 0,
{
    let m = source_mask(source);
    assert(m == 1 || m == 2);
    assert((m == 1u8 || m == 2u8) ==> (0u8 | m) != 0 && (0u8 | m) & !m == 0) by (bit_vector);
}

} // verus!
