//! The mathematical model of the 6510: registers, status flags, and the
//! machine state that every instruction transforms.

use vstd::prelude::*;
use crate::common::io_port::port_value;
use crate::common::traits::Mmu;

verus! {

/// A bit of the status register.
#[derive(Clone, Copy, PartialEq, Eq, Structural)]
pub enum Flag {
    Carry,
    Zero,
    IntDisable,
    Decimal,
    Break,
    Reserved,
    Overflow,
    Negative,
}

/// The mask of each status flag.
pub open spec fn flag_mask(flag: Flag) -> u8 {
    match flag {
        Flag::Carry => 0x01,
        Flag::Zero => 0x02,
        Flag::IntDisable => 0x04,
        Flag::Decimal => 0x08,
        Flag::Break => 0x10,
        Flag::Reserved => 0x20,
        Flag::Overflow => 0x40,
        Flag::Negative => 0x80,
    }
}

impl Flag {
    /// The mask of this flag in the status register.
    pub fn mask(&self) -> (r: u8)
        ensures
            r == flag_mask(*self),
    {
        match self {
            Flag::Carry => 0x01,
            Flag::Zero => 0x02,
            Flag::IntDisable => 0x04,
            Flag::Decimal => 0x08,
            Flag::Break => 0x10,
            Flag::Reserved => 0x20,
            Flag::Overflow => 0x40,
            Flag::Negative => 0x80,
        }
    }
}

/// The register file.
#[derive(Clone, Copy, PartialEq, Eq, Structural)]
pub struct Registers {
    pub a: u8,
    pub x: u8,
    pub y: u8,
    pub p: u8,
    pub pc: u16,
    pub sp: u8,
}

/// All registers cleared.
pub open spec fn cleared_registers() -> Registers {
    Registers { a: 0, x: 0, y: 0, p: 0, pc: 0, sp: 0 }
}

impl Registers {
    /// A register file with every register zero.
    pub fn new() -> (r: Self)
        ensures
            r == cleared_registers(),
    {
        Self { a: 0, x: 0, y: 0, p: 0, pc: 0, sp: 0 }
    }

    /// Clears every register.
    pub fn reset(&mut self)
        ensures
            *final(self) == cleared_registers(),
    {
        self.a = 0;
        self.x = 0;
        self.y = 0;
        self.p = 0;
        self.pc = 0;
        self.sp = 0;
    }
}

/// What an instruction can see and change: the registers, memory (by its
/// view), the processor port at addresses 0 and 1, and the two interrupt lines.
pub struct Machine<V> {
    pub regs: Registers,
    pub mem: V,
    pub direction: u8,
    pub input: u8,
    pub output: u8,
    pub irq: u8,
    pub nmi: u8,
}

/// The status register with `mask` set or cleared.
pub open spec fn with_flag(p: u8, mask: u8, on: bool) -> u8 {
    if on {
        p | mask
    } else {
        p & !mask
    }
}

/// Whether the flags in `mask` are set in `p`.
pub open spec fn has_flag(p: u8, mask: u8) -> bool {
    p & mask != 0
}

/// The status register with N and Z describing `value`.
pub open spec fn with_nz(p: u8, value: u8) -> u8 {
    with_flag(with_flag(p, 0x80, value & 0x80 != 0), 0x02, value == 0)
}

/// The little-endian word of two bytes.
pub open spec fn word_of(low: u8, high: u8) -> u16 {
    (high as int * 256 + low as int) as u16
}

/// The state with other registers.
pub open spec fn with_regs<V>(s: Machine<V>, regs: Registers) -> Machine<V> {
    Machine { regs, ..s }
}

/// The state with another status register.
pub open spec fn with_p<V>(s: Machine<V>, p: u8) -> Machine<V> {
    Machine { regs: Registers { p, ..s.regs }, ..s }
}

/// The state with another program counter.
pub open spec fn with_pc<V>(s: Machine<V>, pc: u16) -> Machine<V> {
    Machine { regs: Registers { pc, ..s.regs }, ..s }
}

/// The byte a read of `address` gives: the port's direction register at 0,
/// the port's pins at 1, memory elsewhere.
pub open spec fn peek<M: Mmu>(s: Machine<M::V>, address: u16) -> u8 {
    if address == 0 {
        s.direction
    } else if address == 1 {
        port_value(s.direction, s.input, s.output)
    } else {
        M::peek(s.mem, address)
    }
}

/// The state after `value` is written to `address`: the port register at 0 or
/// 1 takes it, and memory takes it at every address.
pub open spec fn poke<M: Mmu>(s: Machine<M::V>, address: u16, value: u8) -> Machine<M::V> {
    Machine {
        direction: if address == 0 { value } else { s.direction },
        output: if address == 1 { value } else { s.output },
        mem: M::poke(s.mem, address, value),
        ..s
    }
}

/// The little-endian word read at `address` and the next address.
pub open spec fn peek_word<M: Mmu>(s: Machine<M::V>, address: u16) -> u16 {
    word_of(peek::<M>(s, address), peek::<M>(s, (address + 1) as u16))
}

/// The stack address of a stack pointer.
pub open spec fn stack_address(sp: u8) -> u16 {
    (0x0100 + sp as int) as u16
}

/// The state after `value` is pushed: written at the stack pointer, which then moves down.
pub open spec fn push_spec<M: Mmu>(s: Machine<M::V>, value: u8) -> Machine<M::V> {
    poke::<M>(
        Machine { regs: Registers { sp: s.regs.sp.wrapping_sub(1), ..s.regs }, ..s },
        stack_address(s.regs.sp),
        value,
    )
}

/// The state after a pull: the stack pointer moves up.
pub open spec fn pulled<V>(s: Machine<V>) -> Machine<V> {
    Machine { regs: Registers { sp: s.regs.sp.wrapping_add(1), ..s.regs }, ..s }
}

/// The byte a pull returns: the one at the raised stack pointer.
pub open spec fn pull_value<M: Mmu>(s: Machine<M::V>) -> u8 {
    peek::<M>(s, stack_address(s.regs.sp.wrapping_add(1)))
}

/// The high byte of a word.
pub open spec fn high_byte(w: u16) -> u8 {
    (w as int / 256) as u8
}

/// The low byte of a word.
pub open spec fn low_byte(w: u16) -> u8 {
    (w as int % 256) as u8
}

} // verus!
