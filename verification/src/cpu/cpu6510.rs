//! The MOS 6510: registers, the processor port at addresses 0 and 1,
//! interrupt handling, and the fetch/decode/execute step.

use vstd::prelude::*;
use crate::common::io_port::{noticed, port_value, IoPort};
use crate::common::irq_line::IrqLine;
use crate::common::pin::Pin;
use crate::common::tick::{Tick, TickCounter};
use crate::common::traits::Mmu;
use super::machine::{
    cleared_registers, flag_mask, has_flag, high_byte, low_byte, peek, peek_word, poke, pull_value,
    pulled, push_spec, with_flag, with_nz, with_p, with_pc, with_regs, word_of, Flag, Machine,
    Registers,
};

verus! {

/// An interrupt the CPU can take.
#[derive(Clone, Copy, PartialEq, Eq, Structural)]
pub enum Interrupt {
    Break,
    Irq,
    Nmi,
    Reset,
}

/// The address of the vector each interrupt jumps through.
pub open spec fn interrupt_vector(interrupt: Interrupt) -> u16 {
    match interrupt {
        Interrupt::Break => 0xfffe,
        Interrupt::Irq => 0xfffe,
        Interrupt::Nmi => 0xfffa,
        Interrupt::Reset => 0xfffc,
    }
}

impl Interrupt {
    /// The address of this interrupt's vector.
    pub fn vector(&self) -> (r: u16)
        ensures
            r == interrupt_vector(*self),
    {
        match self {
            Interrupt::Break => 0xfffe,
            Interrupt::Irq => 0xfffe,
            Interrupt::Nmi => 0xfffa,
            Interrupt::Reset => 0xfffc,
        }
    }
}

/// The CPU with its memory, the BA line from the video chip, the processor
/// port and the IRQ and NMI lines.
pub struct Cpu6510<M: Mmu> {
    pub mem: M,
    pub regs: Registers,
    pub ba_line: Pin,
    pub io_port: IoPort,
    pub irq_line: IrqLine,
    pub nmi_line: IrqLine,
}

impl<M: Mmu> View for Cpu6510<M> {
    type V = Machine<M::V>;

    open spec fn view(&self) -> Machine<M::V> {
        Machine {
            regs: self.regs,
            mem: self.mem@,
            direction: self.io_port.direction,
            input: self.io_port.input,
            output: self.io_port.output,
            irq: self.irq_line.signal,
            nmi: self.nmi_line.signal,
        }
    }
}

/// The (byte) shifted and masked forms of a word agree with its high and low bytes.
pub proof fn lemma_word_bytes(w: u16)
    ensures
        ((w >> 8) & 0xff) as u8 == high_byte(w),
        (w & 0xff) as u8 == low_byte(w),
        word_of(low_byte(w), high_byte(w)) == w,
{
    assert(((w >> 8) & 0xff) == w / 256 && (w & 0xff) == w % 256) by (bit_vector);
}

/// Two bytes combined by shift and or form their little-endian word.
pub proof fn lemma_word_of(low: u8, high: u8)
    ensures
        ((high as u16) << 8) | (low as u16) == word_of(low, high),
{
    assert(((high as u16) << 8) | (low as u16) == high as u16 * 256 + low as u16) by (bit_vector);
}

impl<M: Mmu> Cpu6510<M> {
    /// What no instruction changes: the BA line, the port's observer and the
    /// names of the interrupt lines.
    pub open spec fn same_wiring(&self, other: Self) -> bool {
        &&& self.ba_line == other.ba_line
        &&& self.io_port.observer == other.io_port.observer
        &&& self.irq_line.kind == other.irq_line.kind
        &&& self.nmi_line.kind == other.nmi_line.kind
    }

    /// A CPU wired to its lines and memory, with every register zero.
    pub fn new(ba_line: Pin, io_port: IoPort, irq_line: IrqLine, nmi_line: IrqLine, mem: M) -> (r: Self)
        ensures
            r.regs == cleared_registers(),
            r.ba_line == ba_line,
            r.io_port == io_port,
            r.irq_line == irq_line,
            r.nmi_line == nmi_line,
            r.mem == mem,
    {
        Self { mem, regs: Registers::new(), ba_line, io_port, irq_line, nmi_line }
    }

    /// The accumulator.
    pub fn get_a(&self) -> (r: u8)
        ensures
            r == self.regs.a,
    {
        self.regs.a
    }

    /// The status register.
    pub fn get_p(&self) -> (r: u8)
        ensures
            r == self.regs.p,
    {
        self.regs.p
    }

    /// The program counter.
    pub fn get_pc(&self) -> (r: u16)
        ensures
            r == self.regs.pc,
    {
        self.regs.pc
    }

    /// The stack pointer.
    pub fn get_sp(&self) -> (r: u8)
        ensures
            r == self.regs.sp,
    {
        self.regs.sp
    }

    /// The X index register.
    pub fn get_x(&self) -> (r: u8)
        ensures
            r == self.regs.x,
    {
        self.regs.x
    }

    /// The Y index register.
    pub fn get_y(&self) -> (r: u8)
        ensures
            r == self.regs.y,
    {
        self.regs.y
    }

    /// Sets the accumulator.
    pub fn set_a(&mut self, value: u8)
        ensures
            final(self)@ == with_regs(old(self)@, Registers { a: value, ..old(self).regs }),
            final(self).same_wiring(*old(self)),
    {
        self.regs.a = value;
    }

    /// Sets the status register.
    pub fn set_p(&mut self, value: u8)
        ensures
            final(self)@ == with_p(old(self)@, value),
            final(self).same_wiring(*old(self)),
    {
        self.regs.p = value;
    }

    /// Sets the program counter.
    pub fn set_pc(&mut self, value: u16)
        ensures
            final(self)@ == with_pc(old(self)@, value),
            final(self).same_wiring(*old(self)),
    {
        self.regs.pc = value;
    }

    /// Sets the stack pointer.
    pub fn set_sp(&mut self, value: u8)
        ensures
            final(self)@ == with_regs(old(self)@, Registers { sp: value, ..old(self).regs }),
            final(self).same_wiring(*old(self)),
    {
        self.regs.sp = value;
    }

    /// Sets the X index register.
    pub fn set_x(&mut self, value: u8)
        ensures
            final(self)@ == with_regs(old(self)@, Registers { x: value, ..old(self).regs }),
            final(self).same_wiring(*old(self)),
    {
        self.regs.x = value;
    }

    /// Sets the Y index register.
    pub fn set_y(&mut self, value: u8)
        ensures
            final(self)@ == with_regs(old(self)@, Registers { y: value, ..old(self).regs }),
            final(self).same_wiring(*old(self)),
    {
        self.regs.y = value;
    }

    /// Sets or clears a status flag.
    pub fn set_flag(&mut self, flag: Flag, value: bool)
        ensures
            final(self)@ == with_p(old(self)@, with_flag(old(self).regs.p, flag_mask(flag), value)),
            final(self).same_wiring(*old(self)),
    {
        let mask = flag.mask();
        if value {
            self.regs.p = self.regs.p | mask;
        } else {
            self.regs.p = self.regs.p & !mask;
        }
    }

    /// Whether a status flag is set.
    pub fn test_flag(&self, flag: Flag) -> (r: bool)
        ensures
            r == has_flag(self.regs.p, flag_mask(flag)),
    {
        (self.regs.p & flag.mask()) != 0
    }

    /// Sets N and Z to describe `value`.
    pub fn update_nz(&mut self, value: u8)
        ensures
            final(self)@ == with_p(old(self)@, with_nz(old(self).regs.p, value)),
            final(self).same_wiring(*old(self)),
    {
        self.set_flag(Flag::Negative, value & 0x80 != 0);
        self.set_flag(Flag::Zero, value == 0);
    }

    /// Reads a byte as the CPU sees it, taking one cycle.
    pub fn read_internal<T: Tick>(&self, address: u16, tick: &mut T) -> (r: u8)
        ensures
            final(tick).ticks() == old(tick).ticks() + 1,
            r == peek::<M>(self@, address),
    {
        let value = if address == 0x0000 {
            self.io_port.get_direction()
        } else if address == 0x0001 {
            self.io_port.get_value()
        } else {
            self.mem.read(address)
        };
        tick.tick();
        value
    }

    /// Reads a little-endian word, taking two cycles.
    pub fn read_internal_u16<T: Tick>(&self, address: u16, tick: &mut T) -> (r: u16)
        requires
            address < 0xffff,
        ensures
            final(tick).ticks() == old(tick).ticks() + 2,
            r == peek_word::<M>(self@, address),
    {
        let low = self.read_internal(address, tick);
        let high = self.read_internal(address + 1, tick);
        proof {
            lemma_word_of(low, high);
        }
        ((high as u16) << 8) | low as u16
    }

    /// Writes a byte as the CPU sees it, taking one cycle: the port registers
    /// take writes to 0 and 1, and memory takes every write.
    pub fn write_internal<T: Tick>(&mut self, address: u16, value: u8, tick: &mut T)
        ensures
            final(tick).ticks() == old(tick).ticks() + 1,
            final(self)@ == poke::<M>(old(self)@, address, value),
            final(self).same_wiring(*old(self)),
            address == 0 ==> final(self).io_port.notified == noticed(
                IoPort { direction: value, ..old(self).io_port },
            ).notified,
            address == 1 ==> final(self).io_port.notified == noticed(
                IoPort { output: value, ..old(self).io_port },
            ).notified,
            address >= 2 ==> final(self).io_port.notified == old(self).io_port.notified,
    {
        if address == 0x0000 {
            self.io_port.set_direction(value);
        } else if address == 0x0001 {
            self.io_port.set_value(value);
        }
        self.mem.write(address, value);
        tick.tick();
    }

    /// Reads the byte at the program counter and moves past it.
    pub fn fetch_byte<T: Tick>(&mut self, tick: &mut T) -> (r: u8)
        ensures
            final(tick).ticks() == old(tick).ticks() + 1,
            r == peek::<M>(old(self)@, old(self).regs.pc),
            final(self)@ == with_pc(old(self)@, old(self).regs.pc.wrapping_add(1)),
            final(self).same_wiring(*old(self)),
    {
        let byte = self.read_internal(self.regs.pc, tick);
        self.regs.pc = self.regs.pc.wrapping_add(1);
        byte
    }

    /// Reads the word at the program counter and moves past it.
    pub fn fetch_word<T: Tick>(&mut self, tick: &mut T) -> (r: u16)
        requires
            old(self).regs.pc < 0xffff,
        ensures
            final(tick).ticks() == old(tick).ticks() + 2,
            r == peek_word::<M>(old(self)@, old(self).regs.pc),
            final(self)@ == with_pc(old(self)@, old(self).regs.pc.wrapping_add(2)),
            final(self).same_wiring(*old(self)),
    {
        let word = self.read_internal_u16(self.regs.pc, tick);
        self.regs.pc = self.regs.pc.wrapping_add(2);
        word
    }

    /// Pushes a byte onto the stack.
    pub fn push<T: Tick>(&mut self, value: u8, tick: &mut T)
        ensures
            final(tick).ticks() == old(tick).ticks() + 1,
            final(self)@ == push_spec::<M>(old(self)@, value),
            final(self).same_wiring(*old(self)),
    {
        let addr = 0x0100 + self.regs.sp as u16;
        self.regs.sp = self.regs.sp.wrapping_sub(1);
        self.write_internal(addr, value, tick);
    }

    /// Pulls a byte from the stack.
    pub fn pop<T: Tick>(&mut self, tick: &mut T) -> (r: u8)
        ensures
            final(tick).ticks() == old(tick).ticks() + 1,
            r == pull_value::<M>(old(self)@),
            final(self)@ == pulled(old(self)@),
            final(self).same_wiring(*old(self)),
    {
        self.regs.sp = self.regs.sp.wrapping_add(1);
        let addr = 0x0100 + self.regs.sp as u16;
        self.read_internal(addr, tick)
    }

    /// Reads a byte without any clock cycle.
    pub fn read(&self, address: u16) -> (r: u8)
        ensures
            r == peek::<M>(self@, address),
    {
        let mut idle = TickCounter::new();
        self.read_internal(address, &mut idle)
    }

    /// Writes a byte without any clock cycle.
    pub fn write(&mut self, address: u16, value: u8)
        ensures
            final(self)@ == poke::<M>(old(self)@, address, value),
            final(self).same_wiring(*old(self)),
            address == 0 ==> final(self).io_port.notified == noticed(
                IoPort { direction: value, ..old(self).io_port },
            ).notified,
            address == 1 ==> final(self).io_port.notified == noticed(
                IoPort { output: value, ..old(self).io_port },
            ).notified,
            address >= 2 ==> final(self).io_port.notified == old(self).io_port.notified,
    {
        let mut idle = TickCounter::new();
        self.write_internal(address, value, &mut idle);
    }
}

} // verus!
