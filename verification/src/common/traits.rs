//! The interfaces through which the chips, the CPU and memory meet.

use vstd::prelude::*;

verus! {

/// A bank of memory, described through its view.
pub trait Addressable: View + Sized {
    /// The byte that a read of `address` returns from memory `mem`.
    spec fn peek(mem: Self::V, address: u16) -> u8;

    /// Memory `mem` after `value` is written to `address`.
    spec fn poke(mem: Self::V, address: u16, value: u8) -> Self::V;

    /// Whether memory `mem` answers a read of `address`.
    spec fn readable(mem: Self::V, address: u16) -> bool;

    /// Whether memory `mem` accepts a write of `value` to `address`.
    spec fn writable(mem: Self::V, address: u16, value: u8) -> bool;

    /// Reads the byte at `address`.
    fn read(&self, address: u16) -> (value: u8)
        requires
            Self::readable(self@, address),
        ensures
            value == Self::peek(self@, address),
    ;

    /// Writes `value` to `address`.
    fn write(&mut self, address: u16, value: u8)
        requires
            Self::writable(old(self)@, address, value),
        ensures
            final(self)@ == Self::poke(old(self)@, address, value),
    ;
}

/// A chip driven by the system clock, with registers addressed by number.
pub trait Chip {
    /// The chip's internal consistency, kept by every operation.
    spec fn inv(&self) -> bool;

    /// Whether `reg` names one of the chip's registers.
    spec fn is_reg(reg: u8) -> bool;

    /// Whether the chip can take a vertical sync event now.
    spec fn vsync_ready(&self) -> bool;

    /// Emulates one clock cycle.
    fn clock(&mut self)
        requires
            old(self).inv(),
        ensures
            final(self).inv(),
    ;

    /// Emulates `delta` clock cycles.
    fn clock_delta(&mut self, delta: u32)
        requires
            old(self).inv(),
        ensures
            final(self).inv(),
    ;

    /// Handles the vertical sync event.
    fn process_vsync(&mut self)
        requires
            old(self).inv(),
            old(self).vsync_ready(),
        ensures
            final(self).inv(),
    ;

    /// Handles the reset signal.
    fn reset(&mut self)
        requires
            old(self).inv(),
        ensures
            final(self).inv(),
    ;

    /// Reads register `reg`.
    fn read(&mut self, reg: u8) -> (value: u8)
        requires
            old(self).inv(),
            Self::is_reg(reg),
        ensures
            final(self).inv(),
    ;

    /// Writes `value` to register `reg`.
    fn write(&mut self, reg: u8, value: u8)
        requires
            old(self).inv(),
            Self::is_reg(reg),
        ensures
            final(self).inv(),
    ;
}

/// The memory management unit through which the CPU sees memory, described
/// through its view.
pub trait Mmu: View + Sized {
    /// The byte that a read of `address` returns from memory `mem`.
    spec fn peek(mem: Self::V, address: u16) -> u8;

    /// Memory `mem` after `value` is written to `address`.
    spec fn poke(mem: Self::V, address: u16, value: u8) -> Self::V;

    /// Memory `mem` after the bank configuration is switched to `mode`.
    spec fn banked(mem: Self::V, mode: u8) -> Self::V;

    /// Changes the visible banks according to `mode`.
    fn switch_banks(&mut self, mode: u8)
        ensures
            final(self)@ == Self::banked(old(self)@, mode),
    ;

    /// Reads the byte at `address`.
    fn read(&self, address: u16) -> (value: u8)
        ensures
            value == Self::peek(self@, address),
    ;

    /// Writes `value` to `address`.
    fn write(&mut self, address: u16, value: u8)
        ensures
            final(self)@ == Self::poke(old(self)@, address, value),
    ;
}

/// A sink for generated sound samples.
pub trait SoundOutput {
    /// Accepts one sample.
    fn write(&mut self, value: i16);
}

/// A sink for generated pixels.
pub trait VideoOutput {
    /// Sets or clears the frame sync flag.
    fn set_sync(&mut self, value: bool);

    /// Writes the pixel at (`x`, `y`).
    fn write(&mut self, x: u16, y: u16, color: u8);
}

} // verus!
