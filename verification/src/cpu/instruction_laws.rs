//! What each instruction does, stated over the machine state it starts from
//! and the one it leaves: which register or memory byte gets which value,
//! and how the status flags describe it.

use vstd::prelude::*;
use crate::common::ram::Ram;
use crate::bits::lemma_byte_bits;
use super::instruction::Instruction;
use super::laws::lemma_nz;
use super::machine::{has_flag, with_flag, Machine};
use super::operand::{get_spec, is_readable, Operand};
use super::laws::{carry_bit, law_add_binary, law_compare, law_subtract_binary};
use super::machine::peek;
use super::operand::{ea_spec, has_address, is_writable};
use super::semantics::exec_spec;

verus! {

/// N and Z of `p` describe `v`: N is its sign bit, Z whether it is zero.
pub open spec fn flags_describe(p: u8, v: u8) -> bool {
    &&& has_flag(p, 0x80) == (v >= 0x80)
    &&& has_flag(p, 0x02) == (v == 0)
}

/// C and V of `t` are those of `s`.
pub open spec fn carry_overflow_kept(s: u8, t: u8) -> bool {
    &&& has_flag(t, 0x01) == has_flag(s, 0x01)
    &&& has_flag(t, 0x40) == has_flag(s, 0x40)
}

/// `t` differs from `s` at most in A and the status register.
pub open spec fn only_a_and_p(s: Machine<Seq<u8>>, t: Machine<Seq<u8>>) -> bool {
    &&& t.regs.x == s.regs.x
    &&& t.regs.y == s.regs.y
    &&& t.regs.sp == s.regs.sp
    &&& t.regs.pc == s.regs.pc
    &&& t.mem == s.mem
}

/// Setting or clearing one status flag changes that flag alone.
proof fn lemma_flag_bits(p: u8, on: bool)
    by (bit_vector)
    ensures
        has_flag(with_flag(p, 0x01, on), 0x01) == on,
        has_flag(with_flag(p, 0x01, on), 0x02) == has_flag(p, 0x02),
        has_flag(with_flag(p, 0x01, on), 0x04) == has_flag(p, 0x04),
        has_flag(with_flag(p, 0x01, on), 0x08) == has_flag(p, 0x08),
        has_flag(with_flag(p, 0x01, on), 0x40) == has_flag(p, 0x40),
        has_flag(with_flag(p, 0x01, on), 0x80) == has_flag(p, 0x80),
        has_flag(with_flag(p, 0x02, on), 0x02) == on,
        has_flag(with_flag(p, 0x02, on), 0x01) == has_flag(p, 0x01),
        has_flag(with_flag(p, 0x02, on), 0x04) == has_flag(p, 0x04),
        has_flag(with_flag(p, 0x02, on), 0x08) == has_flag(p, 0x08),
        has_flag(with_flag(p, 0x02, on), 0x40) == has_flag(p, 0x40),
        has_flag(with_flag(p, 0x02, on), 0x80) == has_flag(p, 0x80),
        has_flag(with_flag(p, 0x04, on), 0x04) == on,
        has_flag(with_flag(p, 0x04, on), 0x01) == has_flag(p, 0x01),
        has_flag(with_flag(p, 0x04, on), 0x02) == has_flag(p, 0x02),
        has_flag(with_flag(p, 0x04, on), 0x08) == has_flag(p, 0x08),
        has_flag(with_flag(p, 0x04, on), 0x40) == has_flag(p, 0x40),
        has_flag(with_flag(p, 0x04, on), 0x80) == has_flag(p, 0x80),
        has_flag(with_flag(p, 0x08, on), 0x08) == on,
        has_flag(with_flag(p, 0x08, on), 0x01) == has_flag(p, 0x01),
        has_flag(with_flag(p, 0x08, on), 0x02) == has_flag(p, 0x02),
        has_flag(with_flag(p, 0x08, on), 0x04) == has_flag(p, 0x04),
        has_flag(with_flag(p, 0x08, on), 0x40) == has_flag(p, 0x40),
        has_flag(with_flag(p, 0x08, on), 0x80) == has_flag(p, 0x80),
        has_flag(with_flag(p, 0x40, on), 0x40) == on,
        has_flag(with_flag(p, 0x40, on), 0x01) == has_flag(p, 0x01),
        has_flag(with_flag(p, 0x40, on), 0x02) == has_flag(p, 0x02),
        has_flag(with_flag(p, 0x40, on), 0x04) == has_flag(p, 0x04),
        has_flag(with_flag(p, 0x40, on), 0x08) == has_flag(p, 0x08),
        has_flag(with_flag(p, 0x40, on), 0x80) == has_flag(p, 0x80),
        has_flag(with_flag(p, 0x80, on), 0x80) == on,
        has_flag(with_flag(p, 0x80, on), 0x01) == has_flag(p, 0x01),
        has_flag(with_flag(p, 0x80, on), 0x02) == has_flag(p, 0x02),
        has_flag(with_flag(p, 0x80, on), 0x04) == has_flag(p, 0x04),
        has_flag(with_flag(p, 0x80, on), 0x08) == has_flag(p, 0x08),
        has_flag(with_flag(p, 0x80, on), 0x40) == has_flag(p, 0x40),
{
}

/// AND, EOR and ORA combine the operand with A bit by bit (and, exclusive
/// or, inclusive or), leave the result in A with N and Z describing it, and
/// change nothing else.
pub proof fn law_logic(s: Machine<Seq<u8>>, op: Operand)
    requires
        is_readable(op),
    ensures
        exec_spec::<Ram>(s, Instruction::AND(op)).regs.a == get_spec::<Ram>(s, op) & s.regs.a,
        exec_spec::<Ram>(s, Instruction::EOR(op)).regs.a == get_spec::<Ram>(s, op) ^ s.regs.a,
        exec_spec::<Ram>(s, Instruction::ORA(op)).regs.a == get_spec::<Ram>(s, op) | s.regs.a,
        flags_describe(
            exec_spec::<Ram>(s, Instruction::AND(op)).regs.p,
            get_spec::<Ram>(s, op) & s.regs.a,
        ),
        flags_describe(
            exec_spec::<Ram>(s, Instruction::EOR(op)).regs.p,
            get_spec::<Ram>(s, op) ^ s.regs.a,
        ),
        flags_describe(
            exec_spec::<Ram>(s, Instruction::ORA(op)).regs.p,
            get_spec::<Ram>(s, op) | s.regs.a,
        ),
        carry_overflow_kept(s.regs.p, exec_spec::<Ram>(s, Instruction::AND(op)).regs.p),
        carry_overflow_kept(s.regs.p, exec_spec::<Ram>(s, Instruction::EOR(op)).regs.p),
        carry_overflow_kept(s.regs.p, exec_spec::<Ram>(s, Instruction::ORA(op)).regs.p),
        only_a_and_p(s, exec_spec::<Ram>(s, Instruction::AND(op))),
        only_a_and_p(s, exec_spec::<Ram>(s, Instruction::EOR(op))),
        only_a_and_p(s, exec_spec::<Ram>(s, Instruction::ORA(op))),
{
    let v = get_spec::<Ram>(s, op);
    let a = s.regs.a;
    lemma_nz(s.regs.p, v & a);
    lemma_nz(s.regs.p, v ^ a);
    lemma_nz(s.regs.p, v | a);
}

/// `t` differs from `s` at most in X and the status register.
pub open spec fn only_x_and_p(s: Machine<Seq<u8>>, t: Machine<Seq<u8>>) -> bool {
    &&& t.regs.a == s.regs.a
    &&& t.regs.y == s.regs.y
    &&& t.regs.sp == s.regs.sp
    &&& t.regs.pc == s.regs.pc
    &&& t.mem == s.mem
}

/// `t` differs from `s` at most in Y and the status register.
pub open spec fn only_y_and_p(s: Machine<Seq<u8>>, t: Machine<Seq<u8>>) -> bool {
    &&& t.regs.a == s.regs.a
    &&& t.regs.x == s.regs.x
    &&& t.regs.sp == s.regs.sp
    &&& t.regs.pc == s.regs.pc
    &&& t.mem == s.mem
}

/// `t` has the registers and memory of `s`; only status flags may differ.
pub open spec fn only_p(s: Machine<Seq<u8>>, t: Machine<Seq<u8>>) -> bool {
    &&& t.regs.a == s.regs.a
    &&& t.regs.x == s.regs.x
    &&& t.regs.y == s.regs.y
    &&& t.regs.sp == s.regs.sp
    &&& t.regs.pc == s.regs.pc
    &&& t.mem == s.mem
}

/// LDA, LDX and LDY load the operand into their register, LAX into both A
/// and X, with N and Z describing it; C, V and the other registers stay.
pub proof fn law_loads(s: Machine<Seq<u8>>, op: Operand)
    requires
        is_readable(op),
    ensures
        exec_spec::<Ram>(s, Instruction::LDA(op)).regs.a == get_spec::<Ram>(s, op),
        exec_spec::<Ram>(s, Instruction::LDX(op)).regs.x == get_spec::<Ram>(s, op),
        exec_spec::<Ram>(s, Instruction::LDY(op)).regs.y == get_spec::<Ram>(s, op),
        exec_spec::<Ram>(s, Instruction::LAX(op)).regs.a == get_spec::<Ram>(s, op),
        exec_spec::<Ram>(s, Instruction::LAX(op)).regs.x == get_spec::<Ram>(s, op),
        flags_describe(exec_spec::<Ram>(s, Instruction::LDA(op)).regs.p, get_spec::<Ram>(s, op)),
        flags_describe(exec_spec::<Ram>(s, Instruction::LDX(op)).regs.p, get_spec::<Ram>(s, op)),
        flags_describe(exec_spec::<Ram>(s, Instruction::LDY(op)).regs.p, get_spec::<Ram>(s, op)),
        flags_describe(exec_spec::<Ram>(s, Instruction::LAX(op)).regs.p, get_spec::<Ram>(s, op)),
        carry_overflow_kept(s.regs.p, exec_spec::<Ram>(s, Instruction::LDA(op)).regs.p),
        carry_overflow_kept(s.regs.p, exec_spec::<Ram>(s, Instruction::LDX(op)).regs.p),
        carry_overflow_kept(s.regs.p, exec_spec::<Ram>(s, Instruction::LDY(op)).regs.p),
        only_a_and_p(s, exec_spec::<Ram>(s, Instruction::LDA(op))),
        only_x_and_p(s, exec_spec::<Ram>(s, Instruction::LDX(op))),
        only_y_and_p(s, exec_spec::<Ram>(s, Instruction::LDY(op))),
{
    lemma_nz(s.regs.p, get_spec::<Ram>(s, op));
}

/// The transfers copy one register into another, with N and Z describing
/// the copy (TXS alone leaves the flags); nothing else changes.
pub proof fn law_transfers(s: Machine<Seq<u8>>)
    ensures
        exec_spec::<Ram>(s, Instruction::TAX).regs.x == s.regs.a,
        exec_spec::<Ram>(s, Instruction::TAY).regs.y == s.regs.a,
        exec_spec::<Ram>(s, Instruction::TSX).regs.x == s.regs.sp,
        exec_spec::<Ram>(s, Instruction::TXA).regs.a == s.regs.x,
        exec_spec::<Ram>(s, Instruction::TYA).regs.a == s.regs.y,
        exec_spec::<Ram>(s, Instruction::TXS).regs.sp == s.regs.x,
        exec_spec::<Ram>(s, Instruction::TXS).regs.p == s.regs.p,
        flags_describe(exec_spec::<Ram>(s, Instruction::TAX).regs.p, s.regs.a),
        flags_describe(exec_spec::<Ram>(s, Instruction::TAY).regs.p, s.regs.a),
        flags_describe(exec_spec::<Ram>(s, Instruction::TSX).regs.p, s.regs.sp),
        flags_describe(exec_spec::<Ram>(s, Instruction::TXA).regs.p, s.regs.x),
        flags_describe(exec_spec::<Ram>(s, Instruction::TYA).regs.p, s.regs.y),
        only_x_and_p(s, exec_spec::<Ram>(s, Instruction::TAX)),
        only_y_and_p(s, exec_spec::<Ram>(s, Instruction::TAY)),
        only_x_and_p(s, exec_spec::<Ram>(s, Instruction::TSX)),
        only_a_and_p(s, exec_spec::<Ram>(s, Instruction::TXA)),
        only_a_and_p(s, exec_spec::<Ram>(s, Instruction::TYA)),
{
    lemma_nz(s.regs.p, s.regs.a);
    lemma_nz(s.regs.p, s.regs.sp);
    lemma_nz(s.regs.p, s.regs.x);
    lemma_nz(s.regs.p, s.regs.y);
}

/// INX and INY count their register up by one, DEX and DEY down by one,
/// around 256, with N and Z describing the new value.
pub proof fn law_register_counts(s: Machine<Seq<u8>>)
    ensures
        exec_spec::<Ram>(s, Instruction::INX).regs.x == (s.regs.x + 1) % 256,
        exec_spec::<Ram>(s, Instruction::DEX).regs.x == (s.regs.x + 255) % 256,
        exec_spec::<Ram>(s, Instruction::INY).regs.y == (s.regs.y + 1) % 256,
        exec_spec::<Ram>(s, Instruction::DEY).regs.y == (s.regs.y + 255) % 256,
        flags_describe(exec_spec::<Ram>(s, Instruction::INX).regs.p, exec_spec::<Ram>(s, Instruction::INX).regs.x),
        flags_describe(exec_spec::<Ram>(s, Instruction::DEX).regs.p, exec_spec::<Ram>(s, Instruction::DEX).regs.x),
        flags_describe(exec_spec::<Ram>(s, Instruction::INY).regs.p, exec_spec::<Ram>(s, Instruction::INY).regs.y),
        flags_describe(exec_spec::<Ram>(s, Instruction::DEY).regs.p, exec_spec::<Ram>(s, Instruction::DEY).regs.y),
        only_x_and_p(s, exec_spec::<Ram>(s, Instruction::INX)),
        only_x_and_p(s, exec_spec::<Ram>(s, Instruction::DEX)),
        only_y_and_p(s, exec_spec::<Ram>(s, Instruction::INY)),
        only_y_and_p(s, exec_spec::<Ram>(s, Instruction::DEY)),
{
    let x = s.regs.x;
    let y = s.regs.y;
    lemma_nz(s.regs.p, x.wrapping_add(1));
    lemma_nz(s.regs.p, x.wrapping_sub(1));
    lemma_nz(s.regs.p, y.wrapping_add(1));
    lemma_nz(s.regs.p, y.wrapping_sub(1));
}

/// On the accumulator, ASL doubles A (bit 7 goes to C), LSR halves it (bit
/// 0 goes to C), ROL doubles it and adds the old carry, ROR halves it and
/// puts the old carry into bit 7; N and Z describe the new A.
pub proof fn law_shifts(s: Machine<Seq<u8>>)
    ensures
        exec_spec::<Ram>(s, Instruction::ASL(Operand::Accumulator)).regs.a == (s.regs.a * 2) % 256,
        has_flag(exec_spec::<Ram>(s, Instruction::ASL(Operand::Accumulator)).regs.p, 0x01) == (s.regs.a >= 0x80),
        exec_spec::<Ram>(s, Instruction::LSR(Operand::Accumulator)).regs.a == s.regs.a / 2,
        has_flag(exec_spec::<Ram>(s, Instruction::LSR(Operand::Accumulator)).regs.p, 0x01) == (s.regs.a % 2 == 1),
        exec_spec::<Ram>(s, Instruction::ROL(Operand::Accumulator)).regs.a == (s.regs.a * 2 + carry_bit(s.regs.p)) % 256,
        has_flag(exec_spec::<Ram>(s, Instruction::ROL(Operand::Accumulator)).regs.p, 0x01) == (s.regs.a >= 0x80),
        exec_spec::<Ram>(s, Instruction::ROR(Operand::Accumulator)).regs.a == s.regs.a / 2 + 0x80 * carry_bit(s.regs.p),
        has_flag(exec_spec::<Ram>(s, Instruction::ROR(Operand::Accumulator)).regs.p, 0x01) == (s.regs.a % 2 == 1),
        flags_describe(
            exec_spec::<Ram>(s, Instruction::ASL(Operand::Accumulator)).regs.p,
            exec_spec::<Ram>(s, Instruction::ASL(Operand::Accumulator)).regs.a,
        ),
        flags_describe(
            exec_spec::<Ram>(s, Instruction::LSR(Operand::Accumulator)).regs.p,
            exec_spec::<Ram>(s, Instruction::LSR(Operand::Accumulator)).regs.a,
        ),
        flags_describe(
            exec_spec::<Ram>(s, Instruction::ROL(Operand::Accumulator)).regs.p,
            exec_spec::<Ram>(s, Instruction::ROL(Operand::Accumulator)).regs.a,
        ),
        flags_describe(
            exec_spec::<Ram>(s, Instruction::ROR(Operand::Accumulator)).regs.p,
            exec_spec::<Ram>(s, Instruction::ROR(Operand::Accumulator)).regs.a,
        ),
        only_a_and_p(s, exec_spec::<Ram>(s, Instruction::ASL(Operand::Accumulator))),
        only_a_and_p(s, exec_spec::<Ram>(s, Instruction::LSR(Operand::Accumulator))),
        only_a_and_p(s, exec_spec::<Ram>(s, Instruction::ROL(Operand::Accumulator))),
        only_a_and_p(s, exec_spec::<Ram>(s, Instruction::ROR(Operand::Accumulator))),
{
    let a = s.regs.a;
    let p = s.regs.p;
    lemma_byte_bits(a, 0, false, 0, 0, 0);
    let c = has_flag(p, 0x01);
    let asl = ((a * 2) % 256) as u8;
    let lsr = a / 2;
    let rol = ((a * 2 + carry_bit(p)) % 256) as u8;
    let ror = (a / 2 + 0x80 * carry_bit(p)) as u8;
    lemma_flag_bits(p, a >= 0x80);
    lemma_flag_bits(p, a % 2 == 1);
    lemma_nz(with_flag(p, 0x01, a >= 0x80), asl);
    lemma_nz(with_flag(p, 0x01, a % 2 == 1), lsr);
    lemma_nz(with_flag(p, 0x01, a >= 0x80), rol);
    lemma_nz(with_flag(p, 0x01, a % 2 == 1), ror);
}

/// CMP, CPX and CPY compare their register with the operand: C says
/// whether the register is at least the operand, Z whether they are equal;
/// no register or memory byte changes.
pub proof fn law_compares(s: Machine<Seq<u8>>, op: Operand)
    requires
        is_readable(op),
    ensures
        has_flag(exec_spec::<Ram>(s, Instruction::CMP(op)).regs.p, 0x01) == (s.regs.a >= get_spec::<Ram>(s, op)),
        has_flag(exec_spec::<Ram>(s, Instruction::CMP(op)).regs.p, 0x02) == (s.regs.a == get_spec::<Ram>(s, op)),
        has_flag(exec_spec::<Ram>(s, Instruction::CPX(op)).regs.p, 0x01) == (s.regs.x >= get_spec::<Ram>(s, op)),
        has_flag(exec_spec::<Ram>(s, Instruction::CPX(op)).regs.p, 0x02) == (s.regs.x == get_spec::<Ram>(s, op)),
        has_flag(exec_spec::<Ram>(s, Instruction::CPY(op)).regs.p, 0x01) == (s.regs.y >= get_spec::<Ram>(s, op)),
        has_flag(exec_spec::<Ram>(s, Instruction::CPY(op)).regs.p, 0x02) == (s.regs.y == get_spec::<Ram>(s, op)),
        only_p(s, exec_spec::<Ram>(s, Instruction::CMP(op))),
        only_p(s, exec_spec::<Ram>(s, Instruction::CPX(op))),
        only_p(s, exec_spec::<Ram>(s, Instruction::CPY(op))),
{
    let v = get_spec::<Ram>(s, op);
    law_compare(s.regs.p, s.regs.a, v);
    law_compare(s.regs.p, s.regs.x, v);
    law_compare(s.regs.p, s.regs.y, v);
}

/// BIT copies bit 7 of the operand to N and bit 6 to V, and sets Z when the
/// operand and A have no bit in common; A, C and memory stay.
pub proof fn law_bit(s: Machine<Seq<u8>>, op: Operand)
    requires
        is_readable(op),
    ensures
        has_flag(exec_spec::<Ram>(s, Instruction::BIT(op)).regs.p, 0x80) == (get_spec::<Ram>(s, op) >= 0x80),
        has_flag(exec_spec::<Ram>(s, Instruction::BIT(op)).regs.p, 0x40) == ((get_spec::<Ram>(s, op) / 64) % 2 == 1),
        has_flag(exec_spec::<Ram>(s, Instruction::BIT(op)).regs.p, 0x02) == (get_spec::<Ram>(s, op) & s.regs.a == 0),
        has_flag(exec_spec::<Ram>(s, Instruction::BIT(op)).regs.p, 0x01) == has_flag(s.regs.p, 0x01),
        only_p(s, exec_spec::<Ram>(s, Instruction::BIT(op))),
{
    let v = get_spec::<Ram>(s, op);
    let p = s.regs.p;
    lemma_byte_bits(v, 0, false, 0, 0, 0);
    let p1 = with_flag(p, 0x80, v & 0x80 != 0);
    let p2 = with_flag(p1, 0x40, 0x40 & v != 0);
    lemma_flag_bits(p, v & 0x80 != 0);
    lemma_flag_bits(p1, 0x40 & v != 0);
    lemma_flag_bits(p2, v & s.regs.a == 0);
}

/// Each branch jumps to its target exactly when its flag says so (BCC on C
/// clear, BCS on C set, BEQ on Z set, BNE on Z clear, BMI on N set, BPL on
/// N clear, BVS on V set, BVC on V clear), and otherwise goes on.
pub proof fn law_branches(s: Machine<Seq<u8>>, op: Operand)
    requires
        has_address(op),
    ensures
        exec_spec::<Ram>(s, Instruction::BCC(op)).regs.pc == if !has_flag(s.regs.p, 0x01) { ea_spec::<Ram>(s, op) } else { s.regs.pc },
        exec_spec::<Ram>(s, Instruction::BCS(op)).regs.pc == if has_flag(s.regs.p, 0x01) { ea_spec::<Ram>(s, op) } else { s.regs.pc },
        exec_spec::<Ram>(s, Instruction::BEQ(op)).regs.pc == if has_flag(s.regs.p, 0x02) { ea_spec::<Ram>(s, op) } else { s.regs.pc },
        exec_spec::<Ram>(s, Instruction::BNE(op)).regs.pc == if !has_flag(s.regs.p, 0x02) { ea_spec::<Ram>(s, op) } else { s.regs.pc },
        exec_spec::<Ram>(s, Instruction::BMI(op)).regs.pc == if has_flag(s.regs.p, 0x80) { ea_spec::<Ram>(s, op) } else { s.regs.pc },
        exec_spec::<Ram>(s, Instruction::BPL(op)).regs.pc == if !has_flag(s.regs.p, 0x80) { ea_spec::<Ram>(s, op) } else { s.regs.pc },
        exec_spec::<Ram>(s, Instruction::BVS(op)).regs.pc == if has_flag(s.regs.p, 0x40) { ea_spec::<Ram>(s, op) } else { s.regs.pc },
        exec_spec::<Ram>(s, Instruction::BVC(op)).regs.pc == if !has_flag(s.regs.p, 0x40) { ea_spec::<Ram>(s, op) } else { s.regs.pc },
        exec_spec::<Ram>(s, Instruction::JMP(op)).regs.pc == ea_spec::<Ram>(s, op),
        exec_spec::<Ram>(s, Instruction::BEQ(op)).regs.p == s.regs.p,
        exec_spec::<Ram>(s, Instruction::BEQ(op)).regs.a == s.regs.a,
{
}

/// The flag instructions set or clear their own flag (CLC/SEC carry,
/// CLD/SED decimal, CLI/SEI interrupt disable, CLV overflow) and leave
/// every other flag and register as it was.
pub proof fn law_flag_instructions(s: Machine<Seq<u8>>, m: u8)
    requires
        m == 0x01 || m == 0x02 || m == 0x04 || m == 0x08 || m == 0x40 || m == 0x80,
    ensures
        !has_flag(exec_spec::<Ram>(s, Instruction::CLC).regs.p, 0x01),
        has_flag(exec_spec::<Ram>(s, Instruction::SEC).regs.p, 0x01),
        !has_flag(exec_spec::<Ram>(s, Instruction::CLD).regs.p, 0x08),
        has_flag(exec_spec::<Ram>(s, Instruction::SED).regs.p, 0x08),
        !has_flag(exec_spec::<Ram>(s, Instruction::CLI).regs.p, 0x04),
        has_flag(exec_spec::<Ram>(s, Instruction::SEI).regs.p, 0x04),
        !has_flag(exec_spec::<Ram>(s, Instruction::CLV).regs.p, 0x40),
        m != 0x01 ==> has_flag(exec_spec::<Ram>(s, Instruction::CLC).regs.p, m) == has_flag(s.regs.p, m),
        m != 0x01 ==> has_flag(exec_spec::<Ram>(s, Instruction::SEC).regs.p, m) == has_flag(s.regs.p, m),
        m != 0x08 ==> has_flag(exec_spec::<Ram>(s, Instruction::CLD).regs.p, m) == has_flag(s.regs.p, m),
        m != 0x08 ==> has_flag(exec_spec::<Ram>(s, Instruction::SED).regs.p, m) == has_flag(s.regs.p, m),
        m != 0x04 ==> has_flag(exec_spec::<Ram>(s, Instruction::CLI).regs.p, m) == has_flag(s.regs.p, m),
        m != 0x04 ==> has_flag(exec_spec::<Ram>(s, Instruction::SEI).regs.p, m) == has_flag(s.regs.p, m),
        m != 0x40 ==> has_flag(exec_spec::<Ram>(s, Instruction::CLV).regs.p, m) == has_flag(s.regs.p, m),
        only_p(s, exec_spec::<Ram>(s, Instruction::CLC)),
        only_p(s, exec_spec::<Ram>(s, Instruction::SEC)),
        exec_spec::<Ram>(s, Instruction::NOP) == s,
{
    lemma_flag_bits(s.regs.p, false);
    lemma_flag_bits(s.regs.p, true);
}

/// STA, STX and STY write their register to the operand's address (past the
/// processor port, on a 64K RAM), and no register changes.
pub proof fn law_stores(s: Machine<Seq<u8>>, op: Operand)
    requires
        s.mem.len() == 0x10000,
        is_writable(op),
        op != Operand::Accumulator,
        ea_spec::<Ram>(s, op) >= 2,
    ensures
        peek::<Ram>(exec_spec::<Ram>(s, Instruction::STA(op)), ea_spec::<Ram>(s, op)) == s.regs.a,
        peek::<Ram>(exec_spec::<Ram>(s, Instruction::STX(op)), ea_spec::<Ram>(s, op)) == s.regs.x,
        peek::<Ram>(exec_spec::<Ram>(s, Instruction::STY(op)), ea_spec::<Ram>(s, op)) == s.regs.y,
        exec_spec::<Ram>(s, Instruction::STA(op)).regs == s.regs,
        exec_spec::<Ram>(s, Instruction::STX(op)).regs == s.regs,
        exec_spec::<Ram>(s, Instruction::STY(op)).regs == s.regs,
{
}

/// INC and DEC count the byte at the operand's address (past the processor
/// port, on a 64K RAM) up or down by one, around 256, with N and Z
/// describing the new byte; no register changes.
pub proof fn law_memory_counts(s: Machine<Seq<u8>>, op: Operand)
    requires
        s.mem.len() == 0x10000,
        is_writable(op),
        op != Operand::Accumulator,
        ea_spec::<Ram>(s, op) >= 2,
    ensures
        peek::<Ram>(exec_spec::<Ram>(s, Instruction::INC(op)), ea_spec::<Ram>(s, op)) == (get_spec::<Ram>(s, op) + 1) % 256,
        peek::<Ram>(exec_spec::<Ram>(s, Instruction::DEC(op)), ea_spec::<Ram>(s, op)) == (get_spec::<Ram>(s, op) + 255) % 256,
        flags_describe(exec_spec::<Ram>(s, Instruction::INC(op)).regs.p, ((get_spec::<Ram>(s, op) + 1) % 256) as u8),
        flags_describe(exec_spec::<Ram>(s, Instruction::DEC(op)).regs.p, ((get_spec::<Ram>(s, op) + 255) % 256) as u8),
        exec_spec::<Ram>(s, Instruction::INC(op)).regs.a == s.regs.a,
        exec_spec::<Ram>(s, Instruction::INC(op)).regs.x == s.regs.x,
        exec_spec::<Ram>(s, Instruction::DEC(op)).regs.a == s.regs.a,
        exec_spec::<Ram>(s, Instruction::DEC(op)).regs.x == s.regs.x,
{
    let v = get_spec::<Ram>(s, op);
    lemma_nz(s.regs.p, v.wrapping_add(1));
    lemma_nz(s.regs.p, v.wrapping_sub(1));
}

/// In binary mode ADC adds the operand and the carry to A, and SBC
/// subtracts the operand and the borrow (the clear carry) from A, around
/// 256; C says whether the sum passed 255, or whether no borrow was needed.
pub proof fn law_binary_arithmetic(s: Machine<Seq<u8>>, op: Operand)
    requires
        is_readable(op),
        !has_flag(s.regs.p, 0x08),
    ensures
        exec_spec::<Ram>(s, Instruction::ADC(op)).regs.a == (s.regs.a + get_spec::<Ram>(s, op) + carry_bit(s.regs.p)) % 256,
        has_flag(exec_spec::<Ram>(s, Instruction::ADC(op)).regs.p, 0x01)
            == (s.regs.a + get_spec::<Ram>(s, op) + carry_bit(s.regs.p) > 255),
        exec_spec::<Ram>(s, Instruction::SBC(op)).regs.a
            == (s.regs.a - get_spec::<Ram>(s, op) - (1 - carry_bit(s.regs.p))) % 256,
        has_flag(exec_spec::<Ram>(s, Instruction::SBC(op)).regs.p, 0x01)
            == (s.regs.a - get_spec::<Ram>(s, op) - (1 - carry_bit(s.regs.p)) >= 0),
        only_a_and_p(s, exec_spec::<Ram>(s, Instruction::ADC(op))),
        only_a_and_p(s, exec_spec::<Ram>(s, Instruction::SBC(op))),
{
    law_add_binary(s, get_spec::<Ram>(s, op));
    law_subtract_binary(s, get_spec::<Ram>(s, op));
}

} // verus!
