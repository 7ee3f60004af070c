//! What each instruction does to the machine state, as spec functions.

use vstd::prelude::*;
use crate::common::traits::Mmu;
use super::cpu6510::{interrupt_vector, Interrupt};
use super::instruction::{decode_cycles, decode_spec, is_opcode, opcode_operand_bytes, Instruction};
use super::machine::{
    has_flag, high_byte, low_byte, peek, peek_word, pull_value, pulled, push_spec, with_flag,
    with_nz, with_p, with_pc, with_regs, word_of, Machine, Registers,
};
use super::operand::{ea_spec, get_spec, has_address, is_readable, is_writable, set_spec, Operand};

verus! {

/// The state after `value` is loaded into A, with N and Z describing it.
pub open spec fn load_a<V>(s: Machine<V>, value: u8) -> Machine<V> {
    with_regs(s, Registers { a: value, p: with_nz(s.regs.p, value), ..s.regs })
}

/// The state after `value` is loaded into X, with N and Z describing it.
pub open spec fn load_x<V>(s: Machine<V>, value: u8) -> Machine<V> {
    with_regs(s, Registers { x: value, p: with_nz(s.regs.p, value), ..s.regs })
}

/// The state after `value` is loaded into Y, with N and Z describing it.
pub open spec fn load_y<V>(s: Machine<V>, value: u8) -> Machine<V> {
    with_regs(s, Registers { y: value, p: with_nz(s.regs.p, value), ..s.regs })
}

/// The state with a status flag set or cleared.
pub open spec fn flag_op<V>(s: Machine<V>, mask: u8, on: bool) -> Machine<V> {
    with_p(s, with_flag(s.regs.p, mask, on))
}

/// The carry as an addend: 1 when set.
pub open spec fn carry_in(p: u8) -> u16 {
    if has_flag(p, 0x01) {
        1
    } else {
        0
    }
}

/// The 9-bit sum of an addition with carry, with BCD correction in decimal mode.
pub open spec fn adc_sum(ac: u16, value: u16, carry: u16, decimal: bool) -> u16 {
    if !decimal {
        (ac + value + carry) as u16
    } else {
        let t0 = ((ac & 0x0f) + (value & 0x0f) + carry) as u16;
        let t1 = if t0 > 0x09 {
            (t0 + 0x06) as u16
        } else {
            t0
        };
        let t2 = (t1 + (ac & 0xf0) + (value & 0xf0)) as u16;
        if t2 & 0x01f0 > 0x90 {
            (t2 + 0x60) as u16
        } else {
            t2
        }
    }
}

/// ADC: A + value + C, setting V, C, N and Z.
pub open spec fn adc_spec<V>(s: Machine<V>, value: u8) -> Machine<V> {
    let ac = s.regs.a as u16;
    let v = value as u16;
    let temp = adc_sum(ac, v, carry_in(s.regs.p), has_flag(s.regs.p, 0x08));
    let p1 = with_flag(s.regs.p, 0x40, (ac ^ v) & 0x80 == 0 && (ac ^ temp) & 0x80 == 0x80);
    let p2 = with_flag(p1, 0x01, temp > 0xff);
    let result = (temp & 0xff) as u8;
    with_regs(s, Registers { a: result, p: with_nz(p2, result), ..s.regs })
}

/// The 16-bit difference of a subtraction with borrow, with BCD correction in
/// decimal mode.
pub open spec fn sbc_diff(ac: u16, value: u16, borrow: u16, decimal: bool) -> u16 {
    if !decimal {
        ac.wrapping_sub(value).wrapping_sub(borrow)
    } else {
        let t0 = (ac & 0x0f).wrapping_sub(value & 0x0f).wrapping_sub(borrow);
        let t1 = if t0 & 0x10 != 0 {
            (t0.wrapping_sub(0x06) & 0x0f) | (ac & 0xf0).wrapping_sub(value & 0xf0).wrapping_sub(
                0x10,
            )
        } else {
            (t0 & 0x0f) | (ac & 0xf0).wrapping_sub(value & 0xf0)
        };
        if t1 & 0x0100 != 0 {
            (t1 - 0x60) as u16
        } else {
            t1
        }
    }
}

/// SBC: A - value - (1 - C), setting V, C, N and Z.
pub open spec fn sbc_spec<V>(s: Machine<V>, value: u8) -> Machine<V> {
    let ac = s.regs.a as u16;
    let v = value as u16;
    let borrow: u16 = if has_flag(s.regs.p, 0x01) {
        0
    } else {
        1
    };
    let temp = sbc_diff(ac, v, borrow, has_flag(s.regs.p, 0x08));
    let p1 = with_flag(s.regs.p, 0x40, (ac ^ temp) & 0x80 != 0 && (ac ^ v) & 0x80 == 0x80);
    let p2 = with_flag(p1, 0x01, temp < 0x100);
    let result = (temp & 0xff) as u8;
    with_regs(s, Registers { a: result, p: with_nz(p2, result), ..s.regs })
}

/// The status register after comparing `reg` with `value`.
pub open spec fn compare_p(p: u8, reg: u8, value: u8) -> u8 {
    let result = (reg as u16).wrapping_sub(value as u16);
    with_nz(with_flag(p, 0x01, result < 0x100), (result & 0xff) as u8)
}

/// AXS: X = (A & X) - value, with C, N and Z as in a compare.
pub open spec fn axs_spec<V>(s: Machine<V>, value: u8) -> Machine<V> {
    let result = ((s.regs.a & s.regs.x) as u16).wrapping_sub(value as u16);
    with_regs(
        s,
        Registers {
            x: (result & 0xff) as u8,
            p: with_nz(with_flag(s.regs.p, 0x01, result < 0x100), (result & 0xff) as u8),
            ..s.regs
        },
    )
}

/// A read-modify-write: N and Z describe `result` (and C is `carry`, when
/// given), then `result` is stored to the operand.
pub open spec fn rmw_spec<M: Mmu>(
    s: Machine<M::V>,
    op: Operand,
    carry: Option<bool>,
    result: u8,
) -> Machine<M::V> {
    let p1 = match carry {
        Some(c) => with_flag(s.regs.p, 0x01, c),
        None => s.regs.p,
    };
    set_spec::<M>(with_p(s, with_nz(p1, result)), op, result)
}

/// ROL's 9-bit intermediate: the value shifted left with the carry in bit 0.
pub open spec fn rol_temp(value: u8, carry: bool) -> u16 {
    if carry {
        ((value as u16) << 1) | 0x01
    } else {
        (value as u16) << 1
    }
}

/// ROR's 9-bit intermediate: the value with the carry in bit 8.
pub open spec fn ror_temp(value: u8, carry: bool) -> u16 {
    if carry {
        (value as u16) | 0x100
    } else {
        value as u16
    }
}

/// The state after a conditional branch.
pub open spec fn branch_spec<M: Mmu>(s: Machine<M::V>, taken: bool, op: Operand) -> Machine<M::V> {
    if taken {
        with_pc(s, ea_spec::<M>(s, op))
    } else {
        s
    }
}

/// JSR: push the address of the last operand byte, then jump.
pub open spec fn jsr_spec<M: Mmu>(s: Machine<M::V>, op: Operand) -> Machine<M::V> {
    let ret = s.regs.pc.wrapping_sub(1);
    let s2 = push_spec::<M>(push_spec::<M>(s, high_byte(ret)), low_byte(ret));
    with_pc(s2, ea_spec::<M>(s2, op))
}

/// RTS: pull the return address and continue after it.
pub open spec fn rts_spec<M: Mmu>(s: Machine<M::V>) -> Machine<M::V> {
    let low = pull_value::<M>(s);
    let s1 = pulled(s);
    let high = pull_value::<M>(s1);
    with_pc(pulled(s1), word_of(low, high).wrapping_add(1))
}

/// RTI: pull the status register, then the program counter.
pub open spec fn rti_spec<M: Mmu>(s: Machine<M::V>) -> Machine<M::V> {
    let s1 = with_p(pulled(s), pull_value::<M>(s));
    let low = pull_value::<M>(s1);
    let s2 = pulled(s1);
    let high = pull_value::<M>(s2);
    with_pc(pulled(s2), word_of(low, high))
}

/// BIT: N and V from the operand's bits 7 and 6, Z from its AND with A.
pub open spec fn bit_spec<V>(s: Machine<V>, value: u8) -> Machine<V> {
    let p1 = with_flag(s.regs.p, 0x80, value & 0x80 != 0);
    let p2 = with_flag(p1, 0x40, 0x40 & value != 0);
    with_p(s, with_flag(p2, 0x02, value & s.regs.a == 0))
}

/// The state after an interrupt is taken: IRQ and NMI push the program counter
/// and status (with B clear), BRK pushes the address after its padding byte
/// and status with B and bit 5 set; all three set I, NMI releases the NMI
/// line; then the program counter is loaded from the vector.
pub open spec fn interrupt_spec<M: Mmu>(s: Machine<M::V>, interrupt: Interrupt) -> Machine<M::V> {
    let pc = s.regs.pc;
    let p = s.regs.p;
    let s1 = match interrupt {
        Interrupt::Irq => with_p(
            push_spec::<M>(push_spec::<M>(push_spec::<M>(s, high_byte(pc)), low_byte(pc)), p & 0xef),
            with_flag(p, 0x04, true),
        ),
        Interrupt::Nmi => Machine {
            nmi: 0,
            ..with_p(
                push_spec::<M>(
                    push_spec::<M>(push_spec::<M>(s, high_byte(pc)), low_byte(pc)),
                    p & 0xef,
                ),
                with_flag(p, 0x04, true),
            )
        },
        Interrupt::Break => with_p(
            push_spec::<M>(
                push_spec::<M>(
                    push_spec::<M>(s, high_byte((pc + 1) as u16)),
                    low_byte((pc + 1) as u16),
                ),
                (p | 0x10) | 0x20,
            ),
            with_flag(p, 0x04, true),
        ),
        Interrupt::Reset => s,
    };
    with_pc(s1, peek_word::<M>(s1, interrupt_vector(interrupt)))
}

/// The data-movement instructions.
pub open spec fn exec_move<M: Mmu>(s: Machine<M::V>, instr: Instruction) -> Machine<M::V> {
    match instr {
        Instruction::LDA(op) => load_a(s, get_spec::<M>(s, op)),
        Instruction::LDX(op) => load_x(s, get_spec::<M>(s, op)),
        Instruction::LDY(op) => load_y(s, get_spec::<M>(s, op)),
        Instruction::LAX(op) => {
            let v = get_spec::<M>(s, op);
            with_regs(s, Registers { a: v, x: v, p: with_nz(s.regs.p, v), ..s.regs })
        },
        Instruction::PHA => push_spec::<M>(s, s.regs.a),
        Instruction::PHP => push_spec::<M>(s, (s.regs.p | 0x10) | 0x20),
        Instruction::PLA => load_a(pulled(s), pull_value::<M>(s)),
        Instruction::PLP => with_p(pulled(s), pull_value::<M>(s)),
        Instruction::STA(op) => set_spec::<M>(s, op, s.regs.a),
        Instruction::STX(op) => set_spec::<M>(s, op, s.regs.x),
        Instruction::STY(op) => set_spec::<M>(s, op, s.regs.y),
        Instruction::TAX => load_x(s, s.regs.a),
        Instruction::TAY => load_y(s, s.regs.a),
        Instruction::TSX => load_x(s, s.regs.sp),
        Instruction::TXA => load_a(s, s.regs.x),
        Instruction::TXS => with_regs(s, Registers { sp: s.regs.x, ..s.regs }),
        Instruction::TYA => load_a(s, s.regs.y),
        _ => s,
    }
}

/// The arithmetic and logical instructions.
pub open spec fn exec_alu<M: Mmu>(s: Machine<M::V>, instr: Instruction) -> Machine<M::V> {
    match instr {
        Instruction::ADC(op) => adc_spec(s, get_spec::<M>(s, op)),
        Instruction::SBC(op) => sbc_spec(s, get_spec::<M>(s, op)),
        Instruction::CMP(op) => with_p(s, compare_p(s.regs.p, s.regs.a, get_spec::<M>(s, op))),
        Instruction::CPX(op) => with_p(s, compare_p(s.regs.p, s.regs.x, get_spec::<M>(s, op))),
        Instruction::CPY(op) => with_p(s, compare_p(s.regs.p, s.regs.y, get_spec::<M>(s, op))),
        Instruction::AXS(op) => axs_spec(s, get_spec::<M>(s, op)),
        Instruction::DEC(op) => rmw_spec::<M>(s, op, None, get_spec::<M>(s, op).wrapping_sub(1)),
        Instruction::INC(op) => rmw_spec::<M>(s, op, None, get_spec::<M>(s, op).wrapping_add(1)),
        Instruction::DEX => load_x(s, s.regs.x.wrapping_sub(1)),
        Instruction::DEY => load_y(s, s.regs.y.wrapping_sub(1)),
        Instruction::INX => load_x(s, s.regs.x.wrapping_add(1)),
        Instruction::INY => load_y(s, s.regs.y.wrapping_add(1)),
        Instruction::AND(op) => load_a(s, get_spec::<M>(s, op) & s.regs.a),
        Instruction::EOR(op) => load_a(s, get_spec::<M>(s, op) ^ s.regs.a),
        Instruction::ORA(op) => load_a(s, get_spec::<M>(s, op) | s.regs.a),
        Instruction::BIT(op) => bit_spec(s, get_spec::<M>(s, op)),
        _ => s,
    }
}

/// The shift and rotate instructions.
pub open spec fn exec_shift<M: Mmu>(s: Machine<M::V>, instr: Instruction) -> Machine<M::V> {
    match instr {
        Instruction::ASL(op) => {
            let v = get_spec::<M>(s, op);
            rmw_spec::<M>(s, op, Some(v & 0x80 != 0), v << 1)
        },
        Instruction::LSR(op) => {
            let v = get_spec::<M>(s, op);
            rmw_spec::<M>(s, op, Some(v & 0x01 != 0), v >> 1)
        },
        Instruction::ROL(op) => {
            let temp = rol_temp(get_spec::<M>(s, op), has_flag(s.regs.p, 0x01));
            rmw_spec::<M>(s, op, Some(temp > 0xff), (temp & 0xff) as u8)
        },
        Instruction::ROR(op) => {
            let temp = ror_temp(get_spec::<M>(s, op), has_flag(s.regs.p, 0x01));
            rmw_spec::<M>(s, op, Some(temp & 0x01 != 0), ((temp >> 1) & 0xff) as u8)
        },
        _ => s,
    }
}

/// The control-flow instructions.
pub open spec fn exec_flow<M: Mmu>(s: Machine<M::V>, instr: Instruction) -> Machine<M::V> {
    let p = s.regs.p;
    match instr {
        Instruction::BCC(op) => branch_spec::<M>(s, !has_flag(p, 0x01), op),
        Instruction::BCS(op) => branch_spec::<M>(s, has_flag(p, 0x01), op),
        Instruction::BEQ(op) => branch_spec::<M>(s, has_flag(p, 0x02), op),
        Instruction::BMI(op) => branch_spec::<M>(s, has_flag(p, 0x80), op),
        Instruction::BNE(op) => branch_spec::<M>(s, !has_flag(p, 0x02), op),
        Instruction::BPL(op) => branch_spec::<M>(s, !has_flag(p, 0x80), op),
        Instruction::BVC(op) => branch_spec::<M>(s, !has_flag(p, 0x40), op),
        Instruction::BVS(op) => branch_spec::<M>(s, has_flag(p, 0x40), op),
        Instruction::JMP(op) => with_pc(s, ea_spec::<M>(s, op)),
        Instruction::JSR(op) => jsr_spec::<M>(s, op),
        Instruction::RTS => rts_spec::<M>(s),
        Instruction::RTI => rti_spec::<M>(s),
        Instruction::BRK => interrupt_spec::<M>(s, Interrupt::Break),
        _ => s,
    }
}

/// The flag instructions and NOP.
pub open spec fn exec_flags<V>(s: Machine<V>, instr: Instruction) -> Machine<V> {
    match instr {
        Instruction::CLC => flag_op(s, 0x01, false),
        Instruction::CLD => flag_op(s, 0x08, false),
        Instruction::CLI => flag_op(s, 0x04, false),
        Instruction::CLV => flag_op(s, 0x40, false),
        Instruction::SEC => flag_op(s, 0x01, true),
        Instruction::SED => flag_op(s, 0x08, true),
        Instruction::SEI => flag_op(s, 0x04, true),
        _ => s,
    }
}

/// Which group of instructions an instruction belongs to: 0 data movement,
/// 1 arithmetic and logic, 2 shifts, 3 control flow, 4 flags and NOP.
pub open spec fn group_of(instr: Instruction) -> int {
    match instr {
        Instruction::LDA(_) | Instruction::LDX(_) | Instruction::LDY(_) | Instruction::LAX(_)
        | Instruction::PHA | Instruction::PHP | Instruction::PLA | Instruction::PLP
        | Instruction::STA(_) | Instruction::STX(_) | Instruction::STY(_) | Instruction::TAX
        | Instruction::TAY | Instruction::TSX | Instruction::TXA | Instruction::TXS
        | Instruction::TYA => 0,
        Instruction::ADC(_) | Instruction::SBC(_) | Instruction::CMP(_) | Instruction::CPX(_)
        | Instruction::CPY(_) | Instruction::AXS(_) | Instruction::DEC(_) | Instruction::INC(_)
        | Instruction::DEX | Instruction::DEY | Instruction::INX | Instruction::INY
        | Instruction::AND(_) | Instruction::EOR(_) | Instruction::ORA(_)
        | Instruction::BIT(_) => 1,
        Instruction::ASL(_) | Instruction::LSR(_) | Instruction::ROL(_) | Instruction::ROR(_) => 2,
        Instruction::BCC(_) | Instruction::BCS(_) | Instruction::BEQ(_) | Instruction::BMI(_)
        | Instruction::BNE(_) | Instruction::BPL(_) | Instruction::BVC(_) | Instruction::BVS(_)
        | Instruction::JMP(_) | Instruction::JSR(_) | Instruction::RTS | Instruction::RTI
        | Instruction::BRK => 3,
        _ => 4,
    }
}

/// The state after executing `instr` in state `s`.
pub open spec fn exec_spec<M: Mmu>(s: Machine<M::V>, instr: Instruction) -> Machine<M::V> {
    let g = group_of(instr);
    if g == 0 {
        exec_move::<M>(s, instr)
    } else if g == 1 {
        exec_alu::<M>(s, instr)
    } else if g == 2 {
        exec_shift::<M>(s, instr)
    } else if g == 3 {
        exec_flow::<M>(s, instr)
    } else {
        exec_flags(s, instr)
    }
}

/// Whether `instr` can run with the program counter at `pc`: its operand has
/// the kind of addressing mode it needs, and BRK does not sit at the very top
/// of memory.
pub open spec fn instr_ok(pc: u16, instr: Instruction) -> bool {
    match instr {
        Instruction::LDA(op) | Instruction::LDX(op) | Instruction::LDY(op) | Instruction::LAX(op)
        | Instruction::ADC(op) | Instruction::SBC(op) | Instruction::CMP(op) | Instruction::CPX(op)
        | Instruction::CPY(op) | Instruction::AXS(op) | Instruction::AND(op) | Instruction::EOR(op)
        | Instruction::ORA(op) | Instruction::BIT(op) => is_readable(op),
        Instruction::STA(op) | Instruction::STX(op) | Instruction::STY(op) | Instruction::DEC(op)
        | Instruction::INC(op) | Instruction::ASL(op) | Instruction::LSR(op) | Instruction::ROL(op)
        | Instruction::ROR(op) => is_writable(op),
        Instruction::BCC(op) | Instruction::BCS(op) | Instruction::BEQ(op) | Instruction::BMI(op)
        | Instruction::BNE(op) | Instruction::BPL(op) | Instruction::BVC(op) | Instruction::BVS(op)
        | Instruction::JMP(op) | Instruction::JSR(op) => has_address(op),
        Instruction::BRK => pc < 0xffff,
        _ => true,
    }
}

/// The state in which the next instruction is fetched: after a pending NMI
/// or (with I clear) IRQ is taken.
pub open spec fn pre_fetch<M: Mmu>(s: Machine<M::V>) -> Machine<M::V> {
    if s.nmi != 0 {
        interrupt_spec::<M>(s, Interrupt::Nmi)
    } else if s.irq != 0 && !has_flag(s.regs.p, 0x04) {
        interrupt_spec::<M>(s, Interrupt::Irq)
    } else {
        s
    }
}

/// The state after the opcode is fetched.
pub open spec fn after_opcode<M: Mmu>(s: Machine<M::V>) -> Machine<M::V> {
    with_pc(pre_fetch::<M>(s), pre_fetch::<M>(s).regs.pc.wrapping_add(1))
}

/// The opcode a step executes.
pub open spec fn step_opcode<M: Mmu>(s: Machine<M::V>) -> u8 {
    peek::<M>(pre_fetch::<M>(s), pre_fetch::<M>(s).regs.pc)
}

/// The instruction a step executes.
pub open spec fn step_instr<M: Mmu>(s: Machine<M::V>) -> Instruction {
    let f = after_opcode::<M>(s);
    decode_spec(step_opcode::<M>(s), peek::<M>(f, f.regs.pc), peek_word::<M>(f, f.regs.pc))->0
}

/// The state after the instruction's operand bytes are fetched.
pub open spec fn after_operand<M: Mmu>(s: Machine<M::V>) -> Machine<M::V> {
    let f = after_opcode::<M>(s);
    with_pc(f, ((f.regs.pc + opcode_operand_bytes(step_opcode::<M>(s))) % 0x10000) as u16)
}

/// Whether a step can run: the opcode is implemented, a two-byte operand does
/// not run past the top of memory, and the instruction can run.
pub open spec fn step_ok<M: Mmu>(s: Machine<M::V>) -> bool {
    &&& is_opcode(step_opcode::<M>(s))
    &&& (opcode_operand_bytes(step_opcode::<M>(s)) == 2 ==> after_opcode::<M>(s).regs.pc < 0xffff)
    &&& instr_ok(after_operand::<M>(s).regs.pc, step_instr::<M>(s))
}

/// The state after one full step: interrupts, fetch, decode and execute.
pub open spec fn step_spec<M: Mmu>(s: Machine<M::V>) -> Machine<M::V> {
    exec_spec::<M>(after_operand::<M>(s), step_instr::<M>(s))
}

/// The state after reset: registers cleared, port output high, both
/// interrupt lines released, the port registers initialised, and the
/// program counter loaded from the reset vector.
pub open spec fn reset_spec<M: Mmu>(s: Machine<M::V>) -> Machine<M::V> {
    let s0 = Machine {
        regs: Registers { a: 0, x: 0, y: 0, p: 0, pc: 0, sp: 0 },
        output: 0xff,
        irq: 0,
        nmi: 0,
        ..s
    };
    let s2 = super::machine::poke::<M>(super::machine::poke::<M>(s0, 0x0000, 0x2f), 0x0001, 0x1f);
    interrupt_spec::<M>(s2, Interrupt::Reset)
}

/// Clock cycles spent forming an operand's address: the indirect modes read
/// a two-byte pointer.
pub open spec fn address_cycles(op: Operand) -> nat {
    match op {
        Operand::IndirectX(_) | Operand::IndirectY(_) | Operand::Indirect(_) => 2,
        _ => 0,
    }
}

/// Clock cycles spent reading or writing an operand: none for the
/// accumulator or an immediate value, else its address and one access.
pub open spec fn access_cycles(op: Operand) -> nat {
    match op {
        Operand::Accumulator | Operand::Immediate(_) => 0,
        _ => address_cycles(op) + 1,
    }
}

/// Clock cycles an interrupt takes: three pushes, the vector's two bytes
/// and one more cycle; a reset pushes nothing.
pub open spec fn interrupt_cycles(interrupt: Interrupt) -> nat {
    match interrupt {
        Interrupt::Reset => 3,
        _ => 6,
    }
}

/// The clock cycles executing `instr` takes in state `s` (its opcode and
/// operand bytes already fetched): the operand accesses plus the internal
/// cycles of each instruction; a branch forms its target only when taken.
pub open spec fn exec_cycles<V>(s: Machine<V>, instr: Instruction) -> nat {
    let p = s.regs.p;
    match instr {
        Instruction::LDA(op) | Instruction::LDX(op) | Instruction::LDY(op) | Instruction::LAX(op)
        | Instruction::STA(op) | Instruction::STX(op) | Instruction::STY(op)
        | Instruction::ADC(op) | Instruction::SBC(op) | Instruction::CMP(op) | Instruction::CPX(op)
        | Instruction::CPY(op) | Instruction::AXS(op) | Instruction::AND(op) | Instruction::EOR(op)
        | Instruction::ORA(op) | Instruction::BIT(op) => access_cycles(op),
        Instruction::PHA | Instruction::PHP => 2,
        Instruction::PLA | Instruction::PLP => 3,
        Instruction::DEC(op) | Instruction::INC(op) | Instruction::ASL(op) | Instruction::LSR(op)
        | Instruction::ROL(op) | Instruction::ROR(op) => 2 * access_cycles(op) + 1,
        Instruction::BCC(op) => if !has_flag(p, 0x01) { address_cycles(op) } else { 0 },
        Instruction::BCS(op) => if has_flag(p, 0x01) { address_cycles(op) } else { 0 },
        Instruction::BEQ(op) => if has_flag(p, 0x02) { address_cycles(op) } else { 0 },
        Instruction::BMI(op) => if has_flag(p, 0x80) { address_cycles(op) } else { 0 },
        Instruction::BNE(op) => if !has_flag(p, 0x02) { address_cycles(op) } else { 0 },
        Instruction::BPL(op) => if !has_flag(p, 0x80) { address_cycles(op) } else { 0 },
        Instruction::BVC(op) => if !has_flag(p, 0x40) { address_cycles(op) } else { 0 },
        Instruction::BVS(op) => if has_flag(p, 0x40) { address_cycles(op) } else { 0 },
        Instruction::JMP(op) => address_cycles(op),
        Instruction::JSR(op) => address_cycles(op) + 3,
        Instruction::RTS | Instruction::RTI => 5,
        Instruction::BRK => interrupt_cycles(Interrupt::Break),
        _ => 1,
    }
}

/// The clock cycles a pending interrupt takes before the fetch.
pub open spec fn pre_fetch_cycles<V>(s: Machine<V>) -> nat {
    if s.nmi != 0 {
        interrupt_cycles(Interrupt::Nmi)
    } else if s.irq != 0 && !has_flag(s.regs.p, 0x04) {
        interrupt_cycles(Interrupt::Irq)
    } else {
        0
    }
}

/// The clock cycles of one full step: a pending interrupt, the opcode, the
/// operand bytes and the execution.
pub open spec fn step_cycles<M: Mmu>(s: Machine<M::V>) -> nat {
    pre_fetch_cycles(s) + 1 + decode_cycles(step_opcode::<M>(s)) as nat + exec_cycles(
        after_operand::<M>(s),
        step_instr::<M>(s),
    )
}

} // verus!
