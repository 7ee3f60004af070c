//! Addressing modes: where an instruction's operand comes from and goes to.

use vstd::prelude::*;
use crate::common::tick::Tick;
use crate::common::traits::Mmu;
use super::cpu6510::Cpu6510;
use super::machine::{peek, peek_word, poke, Machine, Registers};
use super::semantics::{access_cycles, address_cycles};

verus! {

/// An operand in one of the 6510's addressing modes.
#[derive(Clone, Copy, PartialEq, Eq, Structural)]
pub enum Operand {
    Accumulator,
    Immediate(u8),
    ZeroPage(u8),
    ZeroPageX(u8),
    ZeroPageY(u8),
    Absolute(u16),
    AbsoluteX(u16),
    AbsoluteY(u16),
    IndirectX(u8),
    IndirectY(u8),
    Indirect(u16),
    Relative(i8),
}

/// Whether the operand names an address (every mode but the accumulator
/// and an immediate byte), with a pointer that does not run past 0xffff.
pub open spec fn has_address(op: Operand) -> bool {
    match op {
        Operand::Accumulator => false,
        Operand::Immediate(_) => false,
        Operand::Indirect(address) => address != 0xffff,
        _ => true,
    }
}

/// Whether the operand can be read: not a jump target.
pub open spec fn is_readable(op: Operand) -> bool {
    match op {
        Operand::Indirect(_) => false,
        Operand::Relative(_) => false,
        _ => true,
    }
}

/// Whether the operand can be written: the accumulator or a data address.
pub open spec fn is_writable(op: Operand) -> bool {
    match op {
        Operand::Immediate(_) => false,
        Operand::Indirect(_) => false,
        Operand::Relative(_) => false,
        _ => true,
    }
}

/// The effective address of an operand in state `s`.
pub open spec fn ea_spec<M: Mmu>(s: Machine<M::V>, op: Operand) -> u16 {
    match op {
        Operand::ZeroPage(address) => address as u16,
        Operand::ZeroPageX(address) => address.wrapping_add(s.regs.x) as u16,
        Operand::ZeroPageY(address) => address.wrapping_add(s.regs.y) as u16,
        Operand::Absolute(address) => address,
        Operand::AbsoluteX(address) => address.wrapping_add(s.regs.x as u16),
        Operand::AbsoluteY(address) => address.wrapping_add(s.regs.y as u16),
        Operand::IndirectX(address) => peek_word::<M>(s, address.wrapping_add(s.regs.x) as u16),
        Operand::IndirectY(address) => peek_word::<M>(s, address as u16).wrapping_add(
            s.regs.y as u16,
        ),
        Operand::Indirect(address) => peek_word::<M>(s, address),
        Operand::Relative(offset) => ((s.regs.pc as int + offset as int) % 0x10000) as u16,
        _ => 0,
    }
}

/// The value of an operand in state `s`.
pub open spec fn get_spec<M: Mmu>(s: Machine<M::V>, op: Operand) -> u8 {
    match op {
        Operand::Accumulator => s.regs.a,
        Operand::Immediate(value) => value,
        _ => peek::<M>(s, ea_spec::<M>(s, op)),
    }
}

/// The state after `value` is stored to an operand.
pub open spec fn set_spec<M: Mmu>(s: Machine<M::V>, op: Operand, value: u8) -> Machine<M::V> {
    match op {
        Operand::Accumulator => Machine { regs: Registers { a: value, ..s.regs }, ..s },
        _ => poke::<M>(s, ea_spec::<M>(s, op), value),
    }
}

impl Operand {
    /// The effective address of this operand.
    pub fn ea<M: Mmu, T: Tick>(&self, cpu: &Cpu6510<M>, tick: &mut T) -> (r: u16)
        requires
            has_address(*self),
        ensures
            final(tick).ticks() == old(tick).ticks() + address_cycles(*self),
            r == ea_spec::<M>(cpu@, *self),
    {
        match *self {
            Operand::ZeroPage(address) => address as u16,
            Operand::ZeroPageX(address) => address.wrapping_add(cpu.regs.x) as u16,
            Operand::ZeroPageY(address) => address.wrapping_add(cpu.regs.y) as u16,
            Operand::Absolute(address) => address,
            Operand::AbsoluteX(address) => address.wrapping_add(cpu.regs.x as u16),
            Operand::AbsoluteY(address) => address.wrapping_add(cpu.regs.y as u16),
            Operand::IndirectX(address) => {
                cpu.read_internal_u16(address.wrapping_add(cpu.regs.x) as u16, tick)
            },
            Operand::IndirectY(address) => {
                cpu.read_internal_u16(address as u16, tick).wrapping_add(cpu.regs.y as u16)
            },
            Operand::Indirect(address) => cpu.read_internal_u16(address, tick),
            Operand::Relative(offset) => {
                let pc = cpu.regs.pc;
                if offset < 0 {
                    let distance: u16 = (0i16 - offset as i16) as u16;
                    pc.wrapping_sub(distance)
                } else {
                    pc.wrapping_add(offset as u16)
                }
            },
            Operand::Accumulator => 0,
            Operand::Immediate(_) => 0,
        }
    }

    /// Reads this operand.
    pub fn get<M: Mmu, T: Tick>(&self, cpu: &Cpu6510<M>, tick: &mut T) -> (r: u8)
        requires
            is_readable(*self),
        ensures
            final(tick).ticks() == old(tick).ticks() + access_cycles(*self),
            r == get_spec::<M>(cpu@, *self),
    {
        match *self {
            Operand::Accumulator => cpu.regs.a,
            Operand::Immediate(value) => value,
            _ => {
                let address = self.ea(cpu, tick);
                cpu.read_internal(address, tick)
            },
        }
    }

    /// Writes `value` to this operand.
    pub fn set<M: Mmu, T: Tick>(&self, cpu: &mut Cpu6510<M>, value: u8, tick: &mut T)
        requires
            is_writable(*self),
        ensures
            final(tick).ticks() == old(tick).ticks() + access_cycles(*self),
            final(cpu)@ == set_spec::<M>(old(cpu)@, *self, value),
            final(cpu).same_wiring(*old(cpu)),
    {
        match *self {
            Operand::Accumulator => {
                cpu.regs.a = value;
            },
            _ => {
                let address = self.ea(cpu, tick);
                cpu.write_internal(address, value, tick);
            },
        }
    }
}

} // verus!
