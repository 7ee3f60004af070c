//! Properties of the instruction set that hold of every state: stack
//! round trips, subroutine and interrupt returns, and the arithmetic that
//! the flag-level definitions of ADC, SBC and CMP amount to.

use vstd::prelude::*;
use crate::common::ram::Ram;
use crate::io::cia::{bcd_of, bcd_value};
use super::cpu6510::{lemma_word_bytes, Interrupt};
use super::instruction::Instruction;
use super::machine::{
    has_flag, high_byte, low_byte, peek, peek_word, poke, stack_address, with_flag, with_nz, Machine,
};
use super::operand::Operand;
use super::semantics::{
    adc_spec, compare_p, exec_spec, interrupt_spec, pre_fetch, sbc_spec, step_cycles, step_opcode,
};

verus! {

/// Whether a byte is a valid BCD number: both nibbles at most 9.
pub open spec fn is_bcd(v: u8) -> bool {
    v & 0x0f <= 9 && v >> 4u8 <= 9
}

/// The carry flag as 0 or 1.
pub open spec fn carry_bit(p: u8) -> int {
    if has_flag(p, 0x01) {
        1
    } else {
        0
    }
}

/// N and Z as `with_nz` leaves them: N is bit 7 of the value, Z whether it is zero.
pub(crate) proof fn lemma_nz(p: u8, v: u8)
    ensures
        has_flag(with_nz(p, v), 0x80) == (v >= 0x80),
        has_flag(with_nz(p, v), 0x02) == (v == 0),
        has_flag(with_nz(p, v), 0x01) == has_flag(p, 0x01),
        has_flag(with_nz(p, v), 0x40) == has_flag(p, 0x40),
{
    assert(has_flag(with_nz(p, v), 0x80) == (v >= 0x80) && has_flag(with_nz(p, v), 0x02) == (v == 0)
        && has_flag(with_nz(p, v), 0x01) == has_flag(p, 0x01) && has_flag(with_nz(p, v), 0x40)
        == has_flag(p, 0x40)) by (bit_vector);
}

/// Setting or clearing a flag is what a test of that flag then sees.
pub(crate) proof fn lemma_flag_set(p: u8, mask: u8, on: bool)
    requires
        mask != 0,
    ensures
        has_flag(with_flag(p, mask, on), mask) == on,
{
    assert(mask != 0 ==> has_flag(with_flag(p, mask, on), mask) == on) by (bit_vector);
}

/// A byte written past the processor port is read back, and no other
/// address reads differently (on a 64K RAM).
pub proof fn law_write_read(s: Machine<Seq<u8>>, address: u16, value: u8, other: u16)
    requires
        s.mem.len() == 0x10000,
        address >= 2,
        other != address,
    ensures
        peek::<Ram>(poke::<Ram>(s, address, value), address) == value,
        peek::<Ram>(poke::<Ram>(s, address, value), other) == peek::<Ram>(s, other),
{
}

/// PHA followed by PLA gives back the accumulator and the stack pointer (on a
/// 64K RAM).
pub proof fn law_push_pull_accumulator(s: Machine<Seq<u8>>)
    requires
        s.mem.len() == 0x10000,
    ensures
        exec_spec::<Ram>(exec_spec::<Ram>(s, Instruction::PHA), Instruction::PLA).regs.a
            == s.regs.a,
        exec_spec::<Ram>(exec_spec::<Ram>(s, Instruction::PHA), Instruction::PLA).regs.sp
            == s.regs.sp,
{
    let sp = s.regs.sp;
    assert(sp.wrapping_sub(1).wrapping_add(1) == sp);
}

/// JSR jumps to its target, and a following RTS returns to the instruction
/// after the JSR with the stack pointer restored (on a 64K RAM).
pub proof fn law_call_return(s: Machine<Seq<u8>>, target: u16)
    requires
        s.mem.len() == 0x10000,
    ensures
        exec_spec::<Ram>(s, Instruction::JSR(Operand::Absolute(target))).regs.pc == target,
        exec_spec::<Ram>(
            exec_spec::<Ram>(s, Instruction::JSR(Operand::Absolute(target))),
            Instruction::RTS,
        ).regs.pc == s.regs.pc,
        exec_spec::<Ram>(
            exec_spec::<Ram>(s, Instruction::JSR(Operand::Absolute(target))),
            Instruction::RTS,
        ).regs.sp == s.regs.sp,
{
    let ret = s.regs.pc.wrapping_sub(1);
    lemma_word_bytes(ret);
    let sp = s.regs.sp;
    assert(sp.wrapping_sub(1).wrapping_sub(1).wrapping_add(1) == sp.wrapping_sub(1));
    assert(sp.wrapping_sub(1).wrapping_add(1) == sp);
    assert(ret.wrapping_add(1) == s.regs.pc);
}

/// BRK followed by RTI resumes after BRK's padding byte, with the status
/// register as BRK pushed it (B and bit 5 set) and the stack pointer
/// restored (on a 64K RAM).
pub proof fn law_break_return(s: Machine<Seq<u8>>)
    requires
        s.mem.len() == 0x10000,
        s.regs.pc < 0xffff,
    ensures
        exec_spec::<Ram>(exec_spec::<Ram>(s, Instruction::BRK), Instruction::RTI).regs.pc
            == s.regs.pc + 1,
        exec_spec::<Ram>(exec_spec::<Ram>(s, Instruction::BRK), Instruction::RTI).regs.p
            == (s.regs.p | 0x10) | 0x20,
        exec_spec::<Ram>(exec_spec::<Ram>(s, Instruction::BRK), Instruction::RTI).regs.sp
            == s.regs.sp,
{
    let next = (s.regs.pc + 1) as u16;
    lemma_word_bytes(next);
    let sp = s.regs.sp;
    assert(sp.wrapping_sub(1).wrapping_sub(1).wrapping_sub(1).wrapping_add(1) == sp.wrapping_sub(
        1,
    ).wrapping_sub(1));
    assert(sp.wrapping_sub(1).wrapping_sub(1).wrapping_add(1) == sp.wrapping_sub(1));
    assert(sp.wrapping_sub(1).wrapping_add(1) == sp);
}

/// A pending NMI is always taken first; a pending IRQ is taken only while I
/// is clear; with neither, nothing happens before the fetch.
pub proof fn law_interrupt_priority(s: Machine<Seq<u8>>)
    ensures
        s.nmi != 0 ==> pre_fetch::<Ram>(s) == interrupt_spec::<Ram>(s, Interrupt::Nmi),
        s.nmi == 0 && s.irq != 0 && has_flag(s.regs.p, 0x04) ==> pre_fetch::<Ram>(s) == s,
        s.nmi == 0 && s.irq != 0 && !has_flag(s.regs.p, 0x04) ==> pre_fetch::<Ram>(s)
            == interrupt_spec::<Ram>(s, Interrupt::Irq),
        s.nmi == 0 && s.irq == 0 ==> pre_fetch::<Ram>(s) == s,
{
}

/// Taking an IRQ or NMI sets I, so a further IRQ waits until I is cleared.
pub proof fn law_interrupt_masks_irq(s: Machine<Seq<u8>>, interrupt: Interrupt)
    requires
        interrupt != Interrupt::Reset,
        interrupt == Interrupt::Break ==> s.regs.pc < 0xffff,
    ensures
        has_flag(interrupt_spec::<Ram>(s, interrupt).regs.p, 0x04),
{
    let p = s.regs.p;
    lemma_flag_set(p, 0x04, true);
}

/// ADC in binary mode adds with carry: A becomes the sum modulo 256, C says
/// whether the sum passed 255, and N and Z describe the new A.
pub proof fn law_add_binary(s: Machine<Seq<u8>>, value: u8)
    requires
        !has_flag(s.regs.p, 0x08),
    ensures
        adc_spec(s, value).regs.a == (s.regs.a + value + carry_bit(s.regs.p)) % 256,
        has_flag(adc_spec(s, value).regs.p, 0x01) == (s.regs.a + value + carry_bit(s.regs.p)
            > 255),
        has_flag(adc_spec(s, value).regs.p, 0x02) == (adc_spec(s, value).regs.a == 0),
        has_flag(adc_spec(s, value).regs.p, 0x80) == (adc_spec(s, value).regs.a >= 0x80),
{
    let a = s.regs.a;
    let p = s.regs.p;
    let c: u16 = if has_flag(p, 0x01) {
        1
    } else {
        0
    };
    let temp = (a as u16 + value as u16 + c) as u16;
    assert((temp & 0xff) as u8 == temp % 256) by (bit_vector);
    let p1 = with_flag(p, 0x40, (a as u16 ^ value as u16) & 0x80 == 0 && (a as u16 ^ temp) & 0x80
        == 0x80);
    let on = temp > 0xff;
    lemma_flag_set(p1, 0x01, on);
    lemma_nz(with_flag(p1, 0x01, on), (temp & 0xff) as u8);
}

/// ADC in decimal mode adds BCD numbers: for valid BCD operands A becomes the
/// BCD of the decimal sum modulo 100, and C says whether the sum reached 100.
pub proof fn law_add_decimal(s: Machine<Seq<u8>>, value: u8)
    requires
        has_flag(s.regs.p, 0x08),
        is_bcd(s.regs.a),
        is_bcd(value),
    ensures
        adc_spec(s, value).regs.a == bcd_of(
            ((bcd_value(s.regs.a) + bcd_value(value) + carry_bit(s.regs.p)) % 100) as u8,
        ),
        has_flag(adc_spec(s, value).regs.p, 0x01) == (bcd_value(s.regs.a) + bcd_value(value)
            + carry_bit(s.regs.p) >= 100),
{
    let a = s.regs.a;
    let p = s.regs.p;
    let ac = a as u16;
    let v = value as u16;
    let c: u16 = if has_flag(p, 0x01) {
        1
    } else {
        0
    };
    let t0 = ((ac & 0x0f) + (v & 0x0f) + c) as u16;
    let t1 = if t0 > 0x09 {
        (t0 + 0x06) as u16
    } else {
        t0
    };
    let t2 = (t1 + (ac & 0xf0) + (v & 0xf0)) as u16;
    let temp = if t2 & 0x01f0 > 0x90 {
        (t2 + 0x60) as u16
    } else {
        t2
    };
    let da: u8 = bcd_value(a);
    let dv: u8 = bcd_value(value);
    let cu: u8 = c as u8;
    let n: u8 = ((da + dv + cu) % 100) as u8;
    assert(((temp & 0xff) as u8) == (((n / 10) << 4u8) | (n % 10)) && (temp > 0xff) == (da + dv
        + cu >= 100)) by (bit_vector)
        requires
            a & 0x0f <= 9,
            a >> 4u8 <= 9,
            value & 0x0f <= 9,
            value >> 4u8 <= 9,
            c <= 1,
            cu == c as u8,
            da == ((a >> 4u8) * 10 + (a & 0x0f)) as u8,
            dv == ((value >> 4u8) * 10 + (value & 0x0f)) as u8,
            n == ((da + dv + cu) % 100) as u8,
            ac == a as u16,
            v == value as u16,
            t0 == ((ac & 0x0f) + (v & 0x0f) + c) as u16,
            t1 == if t0 > 0x09 {
                (t0 + 0x06) as u16
            } else {
                t0
            },
            t2 == (t1 + (ac & 0xf0) + (v & 0xf0)) as u16,
            temp == if t2 & 0x01f0 > 0x90 {
                (t2 + 0x60) as u16
            } else {
                t2
            },
    ;
    let p1 = with_flag(p, 0x40, (ac ^ v) & 0x80 == 0 && (ac ^ temp) & 0x80 == 0x80);
    let on = temp > 0xff;
    lemma_flag_set(p1, 0x01, on);
    lemma_nz(with_flag(p1, 0x01, on), (temp & 0xff) as u8);
}

/// SBC in binary mode subtracts with borrow: A becomes the difference modulo
/// 256, and C is set exactly when no borrow was needed.
pub proof fn law_subtract_binary(s: Machine<Seq<u8>>, value: u8)
    requires
        !has_flag(s.regs.p, 0x08),
    ensures
        sbc_spec(s, value).regs.a == (s.regs.a - value - (1 - carry_bit(s.regs.p))) % 256,
        has_flag(sbc_spec(s, value).regs.p, 0x01) == (s.regs.a - value - (1 - carry_bit(
            s.regs.p,
        )) >= 0),
{
    let a = s.regs.a;
    let p = s.regs.p;
    let borrow: u16 = if has_flag(p, 0x01) {
        0
    } else {
        1
    };
    let temp = (a as u16).wrapping_sub(value as u16).wrapping_sub(borrow);
    assert(((temp & 0xff) as u8) == (a - value - borrow) % 256 && (temp < 0x100) == (a - value
        - borrow >= 0)) by (bit_vector)
        requires
            borrow <= 1,
            temp == (a as u16).wrapping_sub(value as u16).wrapping_sub(borrow),
    ;
    let p1 = with_flag(p, 0x40, (a as u16 ^ temp) & 0x80 != 0 && (a as u16 ^ value as u16) & 0x80
        == 0x80);
    let on = temp < 0x100;
    lemma_flag_set(p1, 0x01, on);
    lemma_nz(with_flag(p1, 0x01, on), (temp & 0xff) as u8);
}

/// SBC in decimal mode subtracts BCD numbers: for valid BCD operands A
/// becomes the BCD of the decimal difference modulo 100, and C is set
/// exactly when no borrow was needed.
pub proof fn law_subtract_decimal(s: Machine<Seq<u8>>, value: u8)
    requires
        has_flag(s.regs.p, 0x08),
        is_bcd(s.regs.a),
        is_bcd(value),
    ensures
        sbc_spec(s, value).regs.a == bcd_of(
            ((bcd_value(s.regs.a) + 100 - bcd_value(value) - (1 - carry_bit(s.regs.p))) % 100) as u8,
        ),
        has_flag(sbc_spec(s, value).regs.p, 0x01) == (bcd_value(s.regs.a) - bcd_value(value) - (1
            - carry_bit(s.regs.p)) >= 0),
{
    let a = s.regs.a;
    let p = s.regs.p;
    let ac = a as u16;
    let v = value as u16;
    let borrow: u16 = if has_flag(p, 0x01) {
        0
    } else {
        1
    };
    let t0 = (ac & 0x0f).wrapping_sub(v & 0x0f).wrapping_sub(borrow);
    let t1 = if t0 & 0x10 != 0 {
        (t0.wrapping_sub(0x06) & 0x0f) | (ac & 0xf0).wrapping_sub(v & 0xf0).wrapping_sub(0x10)
    } else {
        (t0 & 0x0f) | (ac & 0xf0).wrapping_sub(v & 0xf0)
    };
    let temp = if t1 & 0x0100 != 0 {
        (t1 - 0x60) as u16
    } else {
        t1
    };
    let da: u8 = bcd_value(a);
    let dv: u8 = bcd_value(value);
    let bu: u8 = borrow as u8;
    let n: u8 = ((da + 100 - dv - bu) % 100) as u8;
    assert(((temp & 0xff) as u8) == (((n / 10) << 4u8) | (n % 10)) && (temp < 0x100) == (da - dv
        - bu >= 0)) by (bit_vector)
        requires
            a & 0x0f <= 9,
            a >> 4u8 <= 9,
            value & 0x0f <= 9,
            value >> 4u8 <= 9,
            borrow <= 1,
            bu == borrow as u8,
            da == ((a >> 4u8) * 10 + (a & 0x0f)) as u8,
            dv == ((value >> 4u8) * 10 + (value & 0x0f)) as u8,
            n == ((da + 100 - dv - bu) % 100) as u8,
            ac == a as u16,
            v == value as u16,
            t0 == (ac & 0x0f).wrapping_sub(v & 0x0f).wrapping_sub(borrow),
            t1 == if t0 & 0x10 != 0 {
                (t0.wrapping_sub(0x06) & 0x0f) | (ac & 0xf0).wrapping_sub(v & 0xf0).wrapping_sub(
                    0x10,
                )
            } else {
                (t0 & 0x0f) | (ac & 0xf0).wrapping_sub(v & 0xf0)
            },
            temp == if t1 & 0x0100 != 0 {
                (t1 - 0x60) as u16
            } else {
                t1
            },
    ;
    let p1 = with_flag(p, 0x40, (ac ^ temp) & 0x80 != 0 && (ac ^ v) & 0x80 == 0x80);
    let on = temp < 0x100;
    lemma_flag_set(p1, 0x01, on);
    lemma_nz(with_flag(p1, 0x01, on), (temp & 0xff) as u8);
}

/// CMP, CPX and CPY compare without changing the register: C says whether
/// the register is at least the operand, Z whether they are equal.
pub proof fn law_compare(p: u8, reg: u8, value: u8)
    ensures
        has_flag(compare_p(p, reg, value), 0x01) == (reg >= value),
        has_flag(compare_p(p, reg, value), 0x02) == (reg == value),
{
    let result = (reg as u16).wrapping_sub(value as u16);
    assert((result < 0x100) == (reg >= value) && (((result & 0xff) as u8 == 0) == (reg == value)))
        by (bit_vector)
        requires
            result == (reg as u16).wrapping_sub(value as u16),
    ;
    let on = result < 0x100;
    lemma_flag_set(p, 0x01, on);
    lemma_nz(with_flag(p, 0x01, on), (result & 0xff) as u8);
}

/// INC then DEC on the accumulator gives the accumulator back.
pub proof fn law_increment_decrement(s: Machine<Seq<u8>>)
    ensures
        exec_spec::<Ram>(
            exec_spec::<Ram>(s, Instruction::INC(Operand::Accumulator)),
            Instruction::DEC(Operand::Accumulator),
        ).regs.a == s.regs.a,
{
    let a = s.regs.a;
    assert(a.wrapping_add(1).wrapping_sub(1) == a);
}


/// An IRQ pushes the return address, high byte first, then the status with
/// B clear; the pushed bytes read back from the stack, the stack pointer
/// moves down three, I is set and the program counter comes from the IRQ
/// vector (on a 64K RAM).
pub proof fn law_irq_frame(s: Machine<Seq<u8>>)
    requires
        s.mem.len() == 0x10000,
    ensures
        peek::<Ram>(interrupt_spec::<Ram>(s, Interrupt::Irq), stack_address(s.regs.sp))
            == high_byte(s.regs.pc),
        peek::<Ram>(interrupt_spec::<Ram>(s, Interrupt::Irq), stack_address(s.regs.sp.wrapping_sub(1)))
            == low_byte(s.regs.pc),
        peek::<Ram>(interrupt_spec::<Ram>(s, Interrupt::Irq), stack_address(s.regs.sp.wrapping_sub(2)))
            == s.regs.p & 0xef,
        interrupt_spec::<Ram>(s, Interrupt::Irq).regs.sp == s.regs.sp.wrapping_sub(3),
        has_flag(interrupt_spec::<Ram>(s, Interrupt::Irq).regs.p, 0x04),
        interrupt_spec::<Ram>(s, Interrupt::Irq).regs.pc == peek_word::<Ram>(
            interrupt_spec::<Ram>(s, Interrupt::Irq),
            0xfffe,
        ),
{
    let sp = s.regs.sp;
    lemma_flag_set(s.regs.p, 0x04, true);
    let a0 = stack_address(sp);
    let a1 = stack_address(sp.wrapping_sub(1));
    let a2 = stack_address(sp.wrapping_sub(2));
    assert(a0 != a1 && a0 != a2 && a1 != a2 && a0 >= 2 && a1 >= 2 && a2 >= 2);
    assert(sp.wrapping_sub(1).wrapping_sub(1) == sp.wrapping_sub(2));
    assert(sp.wrapping_sub(2).wrapping_sub(1) == sp.wrapping_sub(3));
}

/// A step of NOP or of LDA with an immediate operand, with no interrupt
/// pending, takes two clock cycles.
pub proof fn law_two_cycle_step(s: Machine<Seq<u8>>)
    requires
        s.nmi == 0,
        s.irq == 0,
        step_opcode::<Ram>(s) == 0xea || step_opcode::<Ram>(s) == 0xa9,
    ensures
        step_cycles::<Ram>(s) == 2,
{
}


/// An NMI pushes the same frame as an IRQ and jumps through the NMI vector,
/// releasing the NMI line; BRK pushes the address after its padding byte and
/// the status with B and bit 5 set and jumps through the IRQ vector; a reset
/// pushes nothing and jumps through the reset vector (on a 64K RAM).
pub proof fn law_interrupt_frames(s: Machine<Seq<u8>>)
    requires
        s.mem.len() == 0x10000,
        s.regs.pc < 0xffff,
    ensures
        peek::<Ram>(interrupt_spec::<Ram>(s, Interrupt::Nmi), stack_address(s.regs.sp))
            == high_byte(s.regs.pc),
        peek::<Ram>(interrupt_spec::<Ram>(s, Interrupt::Nmi), stack_address(s.regs.sp.wrapping_sub(1)))
            == low_byte(s.regs.pc),
        peek::<Ram>(interrupt_spec::<Ram>(s, Interrupt::Nmi), stack_address(s.regs.sp.wrapping_sub(2)))
            == s.regs.p & 0xef,
        interrupt_spec::<Ram>(s, Interrupt::Nmi).regs.sp == s.regs.sp.wrapping_sub(3),
        interrupt_spec::<Ram>(s, Interrupt::Nmi).nmi == 0,
        has_flag(interrupt_spec::<Ram>(s, Interrupt::Nmi).regs.p, 0x04),
        interrupt_spec::<Ram>(s, Interrupt::Nmi).regs.pc == peek_word::<Ram>(
            interrupt_spec::<Ram>(s, Interrupt::Nmi),
            0xfffa,
        ),
        peek::<Ram>(interrupt_spec::<Ram>(s, Interrupt::Break), stack_address(s.regs.sp))
            == high_byte((s.regs.pc + 1) as u16),
        peek::<Ram>(interrupt_spec::<Ram>(s, Interrupt::Break), stack_address(s.regs.sp.wrapping_sub(1)))
            == low_byte((s.regs.pc + 1) as u16),
        peek::<Ram>(interrupt_spec::<Ram>(s, Interrupt::Break), stack_address(s.regs.sp.wrapping_sub(2)))
            == (s.regs.p | 0x10) | 0x20,
        interrupt_spec::<Ram>(s, Interrupt::Break).regs.sp == s.regs.sp.wrapping_sub(3),
        has_flag(interrupt_spec::<Ram>(s, Interrupt::Break).regs.p, 0x04),
        interrupt_spec::<Ram>(s, Interrupt::Break).regs.pc == peek_word::<Ram>(
            interrupt_spec::<Ram>(s, Interrupt::Break),
            0xfffe,
        ),
        interrupt_spec::<Ram>(s, Interrupt::Reset).regs.sp == s.regs.sp,
        interrupt_spec::<Ram>(s, Interrupt::Reset).regs.p == s.regs.p,
        interrupt_spec::<Ram>(s, Interrupt::Reset).mem == s.mem,
        interrupt_spec::<Ram>(s, Interrupt::Reset).regs.pc == peek_word::<Ram>(s, 0xfffc),
{
    let sp = s.regs.sp;
    lemma_flag_set(s.regs.p, 0x04, true);
    let a0 = stack_address(sp);
    let a1 = stack_address(sp.wrapping_sub(1));
    let a2 = stack_address(sp.wrapping_sub(2));
    assert(a0 != a1 && a0 != a2 && a1 != a2 && a0 >= 2 && a1 >= 2 && a2 >= 2);
    assert(sp.wrapping_sub(1).wrapping_sub(1) == sp.wrapping_sub(2));
    assert(sp.wrapping_sub(2).wrapping_sub(1) == sp.wrapping_sub(3));
}

} // verus!
