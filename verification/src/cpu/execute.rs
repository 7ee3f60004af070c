//! Instruction execution, interrupts, reset and the step loop body.

use vstd::prelude::*;
use crate::common::pin::State;
use crate::common::tick::{Tick, TickCounter};
use crate::common::traits::Mmu;
use super::cpu6510::{lemma_word_bytes, lemma_word_of, Cpu6510, Interrupt};
use super::instruction::Instruction;
use super::machine::Flag;
use super::operand::{has_address, is_readable, is_writable};
use super::semantics::{
    adc_spec, exec_alu, exec_flags, exec_flow, exec_move, exec_shift, exec_spec, group_of,
    instr_ok, interrupt_spec, reset_spec, sbc_spec, step_ok, step_spec, exec_cycles,
    interrupt_cycles, step_cycles,
};

verus! {

/// The group of an instruction, as `group_of` numbers them.
fn group(instr: &Instruction) -> (r: u8)
    ensures
        r == group_of(*instr),
{
    match instr {
        Instruction::LDA(_) | Instruction::LDX(_) | Instruction::LDY(_) | Instruction::LAX(_)
        | Instruction::PHA | Instruction::PHP | Instruction::PLA | Instruction::PLP
        | Instruction::STA(_) | Instruction::STX(_) | Instruction::STY(_) | Instruction::TAX
        | Instruction::TAY | Instruction::TSX | Instruction::TXA | Instruction::TXS
        | Instruction::TYA => 0,
        Instruction::ADC(_) | Instruction::SBC(_) | Instruction::CMP(_) | Instruction::CPX(_)
        | Instruction::CPY(_) | Instruction::AXS(_) | Instruction::DEC(_) | Instruction::INC(_)
        | Instruction::DEX | Instruction::DEY | Instruction::INX | Instruction::INY
        | Instruction::AND(_) | Instruction::EOR(_) | Instruction::ORA(_)
        | Instruction::BIT(_) => 1,
        Instruction::ASL(_) | Instruction::LSR(_) | Instruction::ROL(_) | Instruction::ROR(_) => 2,
        Instruction::BCC(_) | Instruction::BCS(_) | Instruction::BEQ(_) | Instruction::BMI(_)
        | Instruction::BNE(_) | Instruction::BPL(_) | Instruction::BVC(_) | Instruction::BVS(_)
        | Instruction::JMP(_) | Instruction::JSR(_) | Instruction::RTS | Instruction::RTI
        | Instruction::BRK => 3,
        _ => 4,
    }
}

impl<M: Mmu> Cpu6510<M> {
    /// Executes one decoded instruction.
    pub fn execute<T: Tick>(&mut self, instr: &Instruction, tick: &mut T)
        requires
            instr_ok(old(self).regs.pc, *instr),
        ensures
            final(tick).ticks() == old(tick).ticks() + exec_cycles(old(self)@, *instr),
            final(self)@ == exec_spec::<M>(old(self)@, *instr),
            final(self).same_wiring(*old(self)),
    {
        let g = group(instr);
        if g == 0 {
            self.execute_move(instr, tick);
        } else if g == 1 {
            self.execute_alu(instr, tick);
        } else if g == 2 {
            self.execute_shift(instr, tick);
        } else if g == 3 {
            self.execute_flow(instr, tick);
        } else {
            self.execute_flags(instr, tick);
        }
    }

    /// Loads, stores, stack transfers and register transfers.
    fn execute_move<T: Tick>(&mut self, instr: &Instruction, tick: &mut T)
        requires
            group_of(*instr) == 0,
            instr_ok(old(self).regs.pc, *instr),
        ensures
            final(tick).ticks() == old(tick).ticks() + exec_cycles(old(self)@, *instr),
            final(self)@ == exec_move::<M>(old(self)@, *instr),
            final(self).same_wiring(*old(self)),
    {
        match *instr {
            Instruction::LDA(ref op) => {
                let value = op.get(self, tick);
                self.update_nz(value);
                self.regs.a = value;
            },
            Instruction::LDX(ref op) => {
                let value = op.get(self, tick);
                self.update_nz(value);
                self.regs.x = value;
            },
            Instruction::LDY(ref op) => {
                let value = op.get(self, tick);
                self.update_nz(value);
                self.regs.y = value;
            },
            Instruction::LAX(ref op) => {
                let value = op.get(self, tick);
                self.update_nz(value);
                self.regs.a = value;
                self.regs.x = value;
            },
            Instruction::PHA => {
                let value = self.regs.a;
                self.push(value, tick);
                tick.tick();
            },
            Instruction::PHP => {
                let value = self.regs.p | Flag::Break.mask() | Flag::Reserved.mask();
                self.push(value, tick);
                tick.tick();
            },
            Instruction::PLA => {
                let value = self.pop(tick);
                self.update_nz(value);
                self.regs.a = value;
                tick.tick();
                tick.tick();
            },
            Instruction::PLP => {
                let value = self.pop(tick);
                self.regs.p = value;
                tick.tick();
                tick.tick();
            },
            Instruction::STA(ref op) => {
                let value = self.regs.a;
                op.set(self, value, tick);
            },
            Instruction::STX(ref op) => {
                let value = self.regs.x;
                op.set(self, value, tick);
            },
            Instruction::STY(ref op) => {
                let value = self.regs.y;
                op.set(self, value, tick);
            },
            Instruction::TAX => {
                let value = self.regs.a;
                self.update_nz(value);
                self.regs.x = value;
                tick.tick();
            },
            Instruction::TAY => {
                let value = self.regs.a;
                self.update_nz(value);
                self.regs.y = value;
                tick.tick();
            },
            Instruction::TSX => {
                let value = self.regs.sp;
                self.update_nz(value);
                self.regs.x = value;
                tick.tick();
            },
            Instruction::TXA => {
                let value = self.regs.x;
                self.update_nz(value);
                self.regs.a = value;
                tick.tick();
            },
            Instruction::TXS => {
                self.regs.sp = self.regs.x;
                tick.tick();
            },
            Instruction::TYA => {
                let value = self.regs.y;
                self.update_nz(value);
                self.regs.a = value;
                tick.tick();
            },
            _ => {},
        }
    }

    /// ADC on the accumulator and `value`.
    fn add_with_carry(&mut self, value: u8)
        ensures
            final(self)@ == adc_spec(old(self)@, value),
            final(self).same_wiring(*old(self)),
    {
        let ac = self.regs.a as u16;
        let value = value as u16;
        let carry: u16 = if self.test_flag(Flag::Carry) {
            1
        } else {
            0
        };
        let temp: u16 = if !self.test_flag(Flag::Decimal) {
            ac + value + carry
        } else {
            assert(ac & 0x0f <= 0x0f && value & 0x0f <= 0x0f && ac & 0xf0 <= 0xf0 && value & 0xf0
                <= 0xf0) by (bit_vector);
            let mut t = (ac & 0x0f) + (value & 0x0f) + carry;
            if t > 0x09 {
                t = t + 0x06;
            }
            t = t + (ac & 0xf0) + (value & 0xf0);
            if t & 0x01f0 > 0x90 {
                assert(t & 0x01f0 <= t) by (bit_vector);
                t = t + 0x60;
            }
            t
        };
        self.set_flag(Flag::Overflow, (ac ^ value) & 0x80 == 0 && (ac ^ temp) & 0x80 == 0x80);
        self.set_flag(Flag::Carry, temp > 0xff);
        let result = (temp & 0xff) as u8;
        self.update_nz(result);
        self.regs.a = result;
    }

    /// SBC on the accumulator and `value`.
    fn subtract_with_borrow(&mut self, value: u8)
        ensures
            final(self)@ == sbc_spec(old(self)@, value),
            final(self).same_wiring(*old(self)),
    {
        let ac = self.regs.a as u16;
        let value = value as u16;
        let borrow: u16 = if self.test_flag(Flag::Carry) {
            0
        } else {
            1
        };
        let temp: u16 = if !self.test_flag(Flag::Decimal) {
            ac.wrapping_sub(value).wrapping_sub(borrow)
        } else {
            let mut t = (ac & 0x0f).wrapping_sub(value & 0x0f).wrapping_sub(borrow);
            if t & 0x10 != 0 {
                t = (t.wrapping_sub(0x06) & 0x0f) | (ac & 0xf0).wrapping_sub(value & 0xf0).wrapping_sub(
                    0x10,
                );
            } else {
                t = (t & 0x0f) | (ac & 0xf0).wrapping_sub(value & 0xf0);
            }
            if t & 0x0100 != 0 {
                assert(t & 0x0100 != 0 ==> t >= 0x60) by (bit_vector);
                t = t - 0x60;
            }
            t
        };
        self.set_flag(Flag::Overflow, (ac ^ temp) & 0x80 != 0 && (ac ^ value) & 0x80 == 0x80);
        self.set_flag(Flag::Carry, temp < 0x100);
        let result = (temp & 0xff) as u8;
        self.update_nz(result);
        self.regs.a = result;
    }

    /// Arithmetic, comparisons, increments and logic.
    fn execute_alu<T: Tick>(&mut self, instr: &Instruction, tick: &mut T)
        requires
            group_of(*instr) == 1,
            instr_ok(old(self).regs.pc, *instr),
        ensures
            final(tick).ticks() == old(tick).ticks() + exec_cycles(old(self)@, *instr),
            final(self)@ == exec_alu::<M>(old(self)@, *instr),
            final(self).same_wiring(*old(self)),
    {
        match *instr {
            Instruction::ADC(ref op) => {
                let value = op.get(self, tick);
                self.add_with_carry(value);
            },
            Instruction::SBC(ref op) => {
                let value = op.get(self, tick);
                self.subtract_with_borrow(value);
            },
            Instruction::CMP(ref op) => {
                let result = (self.regs.a as u16).wrapping_sub(op.get(self, tick) as u16);
                self.set_flag(Flag::Carry, result < 0x100);
                self.update_nz((result & 0xff) as u8);
            },
            Instruction::CPX(ref op) => {
                let result = (self.regs.x as u16).wrapping_sub(op.get(self, tick) as u16);
                self.set_flag(Flag::Carry, result < 0x100);
                self.update_nz((result & 0xff) as u8);
            },
            Instruction::CPY(ref op) => {
                let result = (self.regs.y as u16).wrapping_sub(op.get(self, tick) as u16);
                self.set_flag(Flag::Carry, result < 0x100);
                self.update_nz((result & 0xff) as u8);
            },
            Instruction::AXS(ref op) => {
                let result = ((self.regs.a & self.regs.x) as u16).wrapping_sub(
                    op.get(self, tick) as u16,
                );
                self.set_flag(Flag::Carry, result < 0x100);
                self.update_nz((result & 0xff) as u8);
                self.regs.x = (result & 0xff) as u8;
            },
            Instruction::DEC(ref op) => {
                let result = op.get(self, tick).wrapping_sub(1);
                self.update_nz(result);
                op.set(self, result, tick);
                tick.tick();
            },
            Instruction::INC(ref op) => {
                let result = op.get(self, tick).wrapping_add(1);
                self.update_nz(result);
                op.set(self, result, tick);
                tick.tick();
            },
            Instruction::DEX => {
                let result = self.regs.x.wrapping_sub(1);
                self.update_nz(result);
                self.regs.x = result;
                tick.tick();
            },
            Instruction::DEY => {
                let result = self.regs.y.wrapping_sub(1);
                self.update_nz(result);
                self.regs.y = result;
                tick.tick();
            },
            Instruction::INX => {
                let result = self.regs.x.wrapping_add(1);
                self.update_nz(result);
                self.regs.x = result;
                tick.tick();
            },
            Instruction::INY => {
                let result = self.regs.y.wrapping_add(1);
                self.update_nz(result);
                self.regs.y = result;
                tick.tick();
            },
            Instruction::AND(ref op) => {
                let result = op.get(self, tick) & self.regs.a;
                self.update_nz(result);
                self.regs.a = result;
            },
            Instruction::EOR(ref op) => {
                let result = op.get(self, tick) ^ self.regs.a;
                self.update_nz(result);
                self.regs.a = result;
            },
            Instruction::ORA(ref op) => {
                let result = op.get(self, tick) | self.regs.a;
                self.update_nz(result);
                self.regs.a = result;
            },
            Instruction::BIT(ref op) => {
                let value = op.get(self, tick);
                let a = self.regs.a;
                self.set_flag(Flag::Negative, value & 0x80 != 0);
                self.set_flag(Flag::Overflow, 0x40 & value != 0);
                self.set_flag(Flag::Zero, value & a == 0);
            },
            _ => {},
        }
    }

    /// Shifts and rotates.
    fn execute_shift<T: Tick>(&mut self, instr: &Instruction, tick: &mut T)
        requires
            group_of(*instr) == 2,
            instr_ok(old(self).regs.pc, *instr),
        ensures
            final(tick).ticks() == old(tick).ticks() + exec_cycles(old(self)@, *instr),
            final(self)@ == exec_shift::<M>(old(self)@, *instr),
            final(self).same_wiring(*old(self)),
    {
        match *instr {
            Instruction::ASL(ref op) => {
                let value = op.get(self, tick);
                self.set_flag(Flag::Carry, (value & 0x80) != 0);
                let result = value << 1;
                self.update_nz(result);
                op.set(self, result, tick);
                tick.tick();
            },
            Instruction::LSR(ref op) => {
                let value = op.get(self, tick);
                self.set_flag(Flag::Carry, (value & 0x01) != 0);
                let result = value >> 1;
                self.update_nz(result);
                op.set(self, result, tick);
                tick.tick();
            },
            Instruction::ROL(ref op) => {
                let value = op.get(self, tick);
                let mut temp = (value as u16) << 1;
                if self.test_flag(Flag::Carry) {
                    temp = temp | 0x01;
                }
                self.set_flag(Flag::Carry, temp > 0xff);
                let result = (temp & 0xff) as u8;
                self.update_nz(result);
                op.set(self, result, tick);
                tick.tick();
            },
            Instruction::ROR(ref op) => {
                let value = op.get(self, tick) as u16;
                let mut temp = if self.test_flag(Flag::Carry) {
                    value | 0x100
                } else {
                    value
                };
                self.set_flag(Flag::Carry, temp & 0x01 != 0);
                temp = temp >> 1;
                let result = (temp & 0xff) as u8;
                self.update_nz(result);
                op.set(self, result, tick);
                tick.tick();
            },
            _ => {},
        }
    }

    /// Branches, jumps, subroutine calls and returns, and BRK.
    fn execute_flow<T: Tick>(&mut self, instr: &Instruction, tick: &mut T)
        requires
            group_of(*instr) == 3,
            instr_ok(old(self).regs.pc, *instr),
        ensures
            final(tick).ticks() == old(tick).ticks() + exec_cycles(old(self)@, *instr),
            final(self)@ == exec_flow::<M>(old(self)@, *instr),
            final(self).same_wiring(*old(self)),
    {
        match *instr {
            Instruction::BCC(ref op) => {
                if !self.test_flag(Flag::Carry) {
                    self.regs.pc = op.ea(self, tick);
                }
            },
            Instruction::BCS(ref op) => {
                if self.test_flag(Flag::Carry) {
                    self.regs.pc = op.ea(self, tick);
                }
            },
            Instruction::BEQ(ref op) => {
                if self.test_flag(Flag::Zero) {
                    self.regs.pc = op.ea(self, tick);
                }
            },
            Instruction::BMI(ref op) => {
                if self.test_flag(Flag::Negative) {
                    self.regs.pc = op.ea(self, tick);
                }
            },
            Instruction::BNE(ref op) => {
                if !self.test_flag(Flag::Zero) {
                    self.regs.pc = op.ea(self, tick);
                }
            },
            Instruction::BPL(ref op) => {
                if !self.test_flag(Flag::Negative) {
                    self.regs.pc = op.ea(self, tick);
                }
            },
            Instruction::BVC(ref op) => {
                if !self.test_flag(Flag::Overflow) {
                    self.regs.pc = op.ea(self, tick);
                }
            },
            Instruction::BVS(ref op) => {
                if self.test_flag(Flag::Overflow) {
                    self.regs.pc = op.ea(self, tick);
                }
            },
            Instruction::JMP(ref op) => {
                self.regs.pc = op.ea(self, tick);
            },
            Instruction::JSR(ref op) => {
                let pc = self.regs.pc.wrapping_sub(1);
                proof {
                    lemma_word_bytes(pc);
                }
                self.push(((pc >> 8) & 0xff) as u8, tick);
                self.push((pc & 0xff) as u8, tick);
                self.regs.pc = op.ea(self, tick);
                tick.tick();
            },
            Instruction::RTS => {
                let low = self.pop(tick);
                let high = self.pop(tick);
                proof {
                    lemma_word_of(low, high);
                }
                let address = ((high as u16) << 8) | (low as u16);
                self.regs.pc = address.wrapping_add(1);
                tick.tick();
                tick.tick();
                tick.tick();
            },
            Instruction::RTI => {
                self.regs.p = self.pop(tick);
                let low = self.pop(tick);
                let high = self.pop(tick);
                proof {
                    lemma_word_of(low, high);
                }
                self.regs.pc = ((high as u16) << 8) | (low as u16);
                tick.tick();
                tick.tick();
            },
            Instruction::BRK => {
                self.interrupt(Interrupt::Break, tick);
            },
            _ => {},
        }
    }

    /// Flag instructions and NOP.
    fn execute_flags<T: Tick>(&mut self, instr: &Instruction, tick: &mut T)
        requires
            group_of(*instr) == 4,
        ensures
            final(tick).ticks() == old(tick).ticks() + exec_cycles(old(self)@, *instr),
            final(self)@ == exec_flags(old(self)@, *instr),
            final(self).same_wiring(*old(self)),
    {
        match *instr {
            Instruction::CLC => self.set_flag(Flag::Carry, false),
            Instruction::CLD => self.set_flag(Flag::Decimal, false),
            Instruction::CLI => self.set_flag(Flag::IntDisable, false),
            Instruction::CLV => self.set_flag(Flag::Overflow, false),
            Instruction::SEC => self.set_flag(Flag::Carry, true),
            Instruction::SED => self.set_flag(Flag::Decimal, true),
            Instruction::SEI => self.set_flag(Flag::IntDisable, true),
            _ => {},
        }
        tick.tick();
    }

    /// Takes an interrupt: pushes the return state, sets I and jumps through
    /// the interrupt's vector.
    pub fn interrupt<T: Tick>(&mut self, interrupt: Interrupt, tick: &mut T)
        requires
            interrupt == Interrupt::Break ==> old(self).regs.pc < 0xffff,
        ensures
            final(tick).ticks() == old(tick).ticks() + interrupt_cycles(interrupt),
            final(self)@ == interrupt_spec::<M>(old(self)@, interrupt),
            final(self).same_wiring(*old(self)),
    {
        let pc = self.regs.pc;
        let p = self.regs.p;
        proof {
            lemma_word_bytes(pc);
        }
        match interrupt {
            Interrupt::Irq => {
                self.push(((pc >> 8) & 0xff) as u8, tick);
                self.push((pc & 0xff) as u8, tick);
                self.push(p & 0xef, tick);
                self.set_flag(Flag::IntDisable, true);
            },
            Interrupt::Nmi => {
                self.push(((pc >> 8) & 0xff) as u8, tick);
                self.push((pc & 0xff) as u8, tick);
                self.push(p & 0xef, tick);
                self.set_flag(Flag::IntDisable, true);
                self.nmi_line.reset();
            },
            Interrupt::Break => {
                let next = pc + 1;
                proof {
                    lemma_word_bytes(next);
                }
                self.push(((next >> 8) & 0xff) as u8, tick);
                self.push((next & 0xff) as u8, tick);
                self.push(p | Flag::Break.mask() | Flag::Reserved.mask(), tick);
                self.set_flag(Flag::IntDisable, true);
            },
            Interrupt::Reset => {},
        }
        self.regs.pc = self.read_internal_u16(interrupt.vector(), tick);
        tick.tick();
    }

    /// Resets the CPU: clears the registers, raises the port outputs, releases
    /// both interrupt lines, sets up the processor port and jumps through the
    /// reset vector.
    pub fn reset(&mut self)
        ensures
            final(self)@ == reset_spec::<M>(old(self)@),
            final(self).same_wiring(*old(self)),
    {
        self.regs.reset();
        self.io_port.set_value(0xff);
        self.irq_line.reset();
        self.nmi_line.reset();
        self.write(0x0000, 0b_0010_1111);
        self.write(0x0001, 0b_0001_1111);
        let mut idle = TickCounter::new();
        self.interrupt(Interrupt::Reset, &mut idle);
    }

    /// One step, ticking `tick` once per elapsed cycle: while the video chip
    /// holds BA low the CPU only waits a cycle;
    /// otherwise it takes a pending NMI, or an IRQ when I is clear, then
    /// fetches, decodes and executes one instruction.
    pub fn step<T: Tick>(&mut self, tick: &mut T)
        requires
            old(self).ba_line.state == State::High ==> step_ok::<M>(old(self)@),
        ensures
            old(self).ba_line.state == State::High ==> final(tick).ticks() == old(tick).ticks() + step_cycles::<M>(old(self)@),
            old(self).ba_line.state == State::Low ==> final(tick).ticks() == old(tick).ticks() + 1,
            old(self).ba_line.state == State::Low ==> final(self)@ == old(self)@,
            old(self).ba_line.state == State::High ==> final(self)@ == step_spec::<M>(old(self)@),
            final(self).same_wiring(*old(self)),
    {
        if self.ba_line.is_low() {
            tick.tick();
            return;
        }
        if self.nmi_line.is_low() {
            self.interrupt(Interrupt::Nmi, tick);
        } else if self.irq_line.is_low() && !self.test_flag(Flag::IntDisable) {
            self.interrupt(Interrupt::Irq, tick);
        }
        let opcode = self.fetch_byte(tick);
        let instr = Instruction::decode(self, opcode, tick);
        self.execute(&instr, tick);
    }
}

} // verus!
