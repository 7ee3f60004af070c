//! The instruction set, and decoding of an opcode and its operand bytes.

use vstd::prelude::*;
use crate::common::tick::Tick;
use crate::common::traits::Mmu;
use super::cpu6510::Cpu6510;
use super::machine::{peek, peek_word, with_pc};
use super::operand::Operand;

verus! {

/// A decoded instruction with its operand.
#[derive(Clone, Copy, PartialEq, Eq, Structural)]
pub enum Instruction {
    // Data movement
    LDA(Operand),
    LDX(Operand),
    LDY(Operand),
    PHA,
    PHP,
    PLA,
    PLP,
    STA(Operand),
    STX(Operand),
    STY(Operand),
    TAX,
    TAY,
    TSX,
    TXA,
    TXS,
    TYA,
    // Arithmetic
    ADC(Operand),
    SBC(Operand),
    CMP(Operand),
    CPX(Operand),
    CPY(Operand),
    DEC(Operand),
    DEX,
    DEY,
    INC(Operand),
    INX,
    INY,
    // Logical
    AND(Operand),
    EOR(Operand),
    ORA(Operand),
    // Shift and rotate
    ASL(Operand),
    LSR(Operand),
    ROL(Operand),
    ROR(Operand),
    // Control flow
    BCC(Operand),
    BCS(Operand),
    BEQ(Operand),
    BMI(Operand),
    BNE(Operand),
    BPL(Operand),
    BVC(Operand),
    BVS(Operand),
    JMP(Operand),
    JSR(Operand),
    RTS,
    // Miscellaneous
    BIT(Operand),
    BRK,
    CLC,
    CLD,
    CLI,
    CLV,
    NOP,
    SEC,
    SED,
    SEI,
    RTI,
    // Undocumented
    AXS(Operand),
    LAX(Operand),
}

/// The operand of an instruction, if it has one.
pub open spec fn operand_of(instr: Instruction) -> Option<Operand> {
    match instr {
        Instruction::LDA(op) => Some(op),
        Instruction::LDX(op) => Some(op),
        Instruction::LDY(op) => Some(op),
        Instruction::STA(op) => Some(op),
        Instruction::STX(op) => Some(op),
        Instruction::STY(op) => Some(op),
        Instruction::ADC(op) => Some(op),
        Instruction::SBC(op) => Some(op),
        Instruction::CMP(op) => Some(op),
        Instruction::CPX(op) => Some(op),
        Instruction::CPY(op) => Some(op),
        Instruction::DEC(op) => Some(op),
        Instruction::INC(op) => Some(op),
        Instruction::AND(op) => Some(op),
        Instruction::EOR(op) => Some(op),
        Instruction::ORA(op) => Some(op),
        Instruction::ASL(op) => Some(op),
        Instruction::LSR(op) => Some(op),
        Instruction::ROL(op) => Some(op),
        Instruction::ROR(op) => Some(op),
        Instruction::BCC(op) => Some(op),
        Instruction::BCS(op) => Some(op),
        Instruction::BEQ(op) => Some(op),
        Instruction::BMI(op) => Some(op),
        Instruction::BNE(op) => Some(op),
        Instruction::BPL(op) => Some(op),
        Instruction::BVC(op) => Some(op),
        Instruction::BVS(op) => Some(op),
        Instruction::JMP(op) => Some(op),
        Instruction::JSR(op) => Some(op),
        Instruction::BIT(op) => Some(op),
        Instruction::AXS(op) => Some(op),
        Instruction::LAX(op) => Some(op),
        _ => None,
    }
}

/// The number of bytes an operand takes after the opcode.
pub open spec fn operand_bytes(op: Option<Operand>) -> int {
    match op {
        None => 0,
        Some(Operand::Accumulator) => 0,
        Some(Operand::Absolute(_)) => 2,
        Some(Operand::AbsoluteX(_)) => 2,
        Some(Operand::AbsoluteY(_)) => 2,
        Some(Operand::Indirect(_)) => 2,
        Some(_) => 1,
    }
}

/// The instruction an opcode stands for, given the byte and the little-endian
/// word that follow it; `None` for an opcode this CPU does not implement.
pub open spec fn decode_spec(opcode: u8, byte: u8, word: u16) -> Option<Instruction> {
    match opcode {
        0x00 => Some(Instruction::BRK),
        0x01 => Some(Instruction::ORA(Operand::IndirectX(byte))),
        0x05 => Some(Instruction::ORA(Operand::ZeroPage(byte))),
        0x06 => Some(Instruction::ASL(Operand::ZeroPage(byte))),
        0x08 => Some(Instruction::PHP),
        0x09 => Some(Instruction::ORA(Operand::Immediate(byte))),
        0x0a => Some(Instruction::ASL(Operand::Accumulator)),
        0x0d => Some(Instruction::ORA(Operand::Absolute(word))),
        0x0e => Some(Instruction::ASL(Operand::Absolute(word))),
        0x10 => Some(Instruction::BPL(Operand::Relative(byte as i8))),
        0x11 => Some(Instruction::ORA(Operand::IndirectY(byte))),
        0x15 => Some(Instruction::ORA(Operand::ZeroPageX(byte))),
        0x16 => Some(Instruction::ASL(Operand::ZeroPageX(byte))),
        0x18 => Some(Instruction::CLC),
        0x19 => Some(Instruction::ORA(Operand::AbsoluteY(word))),
        0x1d => Some(Instruction::ORA(Operand::AbsoluteX(word))),
        0x1e => Some(Instruction::ASL(Operand::AbsoluteX(word))),
        0x20 => Some(Instruction::JSR(Operand::Absolute(word))),
        0x21 => Some(Instruction::AND(Operand::IndirectX(byte))),
        0x24 => Some(Instruction::BIT(Operand::ZeroPage(byte))),
        0x25 => Some(Instruction::AND(Operand::ZeroPage(byte))),
        0x26 => Some(Instruction::ROL(Operand::ZeroPage(byte))),
        0x28 => Some(Instruction::PLP),
        0x29 => Some(Instruction::AND(Operand::Immediate(byte))),
        0x2a => Some(Instruction::ROL(Operand::Accumulator)),
        0x2c => Some(Instruction::BIT(Operand::Absolute(word))),
        0x2d => Some(Instruction::AND(Operand::Absolute(word))),
        0x2e => Some(Instruction::ROL(Operand::Absolute(word))),
        0x30 => Some(Instruction::BMI(Operand::Relative(byte as i8))),
        0x31 => Some(Instruction::AND(Operand::IndirectY(byte))),
        0x35 => Some(Instruction::AND(Operand::ZeroPageX(byte))),
        0x36 => Some(Instruction::ROL(Operand::ZeroPageX(byte))),
        0x38 => Some(Instruction::SEC),
        0x39 => Some(Instruction::AND(Operand::AbsoluteY(word))),
        0x3d => Some(Instruction::AND(Operand::AbsoluteX(word))),
        0x3e => Some(Instruction::ROL(Operand::AbsoluteX(word))),
        0x40 => Some(Instruction::RTI),
        0x41 => Some(Instruction::EOR(Operand::IndirectX(byte))),
        0x45 => Some(Instruction::EOR(Operand::ZeroPage(byte))),
        0x46 => Some(Instruction::LSR(Operand::ZeroPage(byte))),
        0x48 => Some(Instruction::PHA),
        0x49 => Some(Instruction::EOR(Operand::Immediate(byte))),
        0x4a => Some(Instruction::LSR(Operand::Accumulator)),
        0x4c => Some(Instruction::JMP(Operand::Absolute(word))),
        0x4d => Some(Instruction::EOR(Operand::Absolute(word))),
        0x4e => Some(Instruction::LSR(Operand::Absolute(word))),
        0x50 => Some(Instruction::BVC(Operand::Relative(byte as i8))),
        0x51 => Some(Instruction::EOR(Operand::IndirectY(byte))),
        0x55 => Some(Instruction::EOR(Operand::ZeroPageX(byte))),
        0x56 => Some(Instruction::LSR(Operand::ZeroPageX(byte))),
        0x58 => Some(Instruction::CLI),
        0x59 => Some(Instruction::EOR(Operand::AbsoluteY(word))),
        0x5d => Some(Instruction::EOR(Operand::AbsoluteX(word))),
        0x5e => Some(Instruction::LSR(Operand::AbsoluteX(word))),
        0x60 => Some(Instruction::RTS),
        0x61 => Some(Instruction::ADC(Operand::IndirectX(byte))),
        0x65 => Some(Instruction::ADC(Operand::ZeroPage(byte))),
        0x66 => Some(Instruction::ROR(Operand::ZeroPage(byte))),
        0x68 => Some(Instruction::PLA),
        0x69 => Some(Instruction::ADC(Operand::Immediate(byte))),
        0x6a => Some(Instruction::ROR(Operand::Accumulator)),
        0x6c => Some(Instruction::JMP(Operand::Indirect(word))),
        0x6d => Some(Instruction::ADC(Operand::Absolute(word))),
        0x6e => Some(Instruction::ROR(Operand::Absolute(word))),
        0x70 => Some(Instruction::BVS(Operand::Relative(byte as i8))),
        0x71 => Some(Instruction::ADC(Operand::IndirectY(byte))),
        0x75 => Some(Instruction::ADC(Operand::ZeroPageX(byte))),
        0x76 => Some(Instruction::ROR(Operand::ZeroPageX(byte))),
        0x78 => Some(Instruction::SEI),
        0x79 => Some(Instruction::ADC(Operand::AbsoluteY(word))),
        0x7d => Some(Instruction::ADC(Operand::AbsoluteX(word))),
        0x7e => Some(Instruction::ROR(Operand::AbsoluteX(word))),
        0x81 => Some(Instruction::STA(Operand::IndirectX(byte))),
        0x84 => Some(Instruction::STY(Operand::ZeroPage(byte))),
        0x85 => Some(Instruction::STA(Operand::ZeroPage(byte))),
        0x86 => Some(Instruction::STX(Operand::ZeroPage(byte))),
        0x88 => Some(Instruction::DEY),
        0x8a => Some(Instruction::TXA),
        0x8c => Some(Instruction::STY(Operand::Absolute(word))),
        0x8d => Some(Instruction::STA(Operand::Absolute(word))),
        0x8e => Some(Instruction::STX(Operand::Absolute(word))),
        0x90 => Some(Instruction::BCC(Operand::Relative(byte as i8))),
        0x91 => Some(Instruction::STA(Operand::IndirectY(byte))),
        0x94 => Some(Instruction::STY(Operand::ZeroPageX(byte))),
        0x95 => Some(Instruction::STA(Operand::ZeroPageX(byte))),
        0x96 => Some(Instruction::STX(Operand::ZeroPageY(byte))),
        0x98 => Some(Instruction::TYA),
        0x99 => Some(Instruction::STA(Operand::AbsoluteY(word))),
        0x9a => Some(Instruction::TXS),
        0x9d => Some(Instruction::STA(Operand::AbsoluteX(word))),
        0xa0 => Some(Instruction::LDY(Operand::Immediate(byte))),
        0xa1 => Some(Instruction::LDA(Operand::IndirectX(byte))),
        0xa2 => Some(Instruction::LDX(Operand::Immediate(byte))),
        0xa4 => Some(Instruction::LDY(Operand::ZeroPage(byte))),
        0xa5 => Some(Instruction::LDA(Operand::ZeroPage(byte))),
        0xa6 => Some(Instruction::LDX(Operand::ZeroPage(byte))),
        0xa7 => Some(Instruction::LAX(Operand::ZeroPage(byte))),
        0xa8 => Some(Instruction::TAY),
        0xa9 => Some(Instruction::LDA(Operand::Immediate(byte))),
        0xaa => Some(Instruction::TAX),
        0xac => Some(Instruction::LDY(Operand::Absolute(word))),
        0xad => Some(Instruction::LDA(Operand::Absolute(word))),
        0xae => Some(Instruction::LDX(Operand::Absolute(word))),
        0xb0 => Some(Instruction::BCS(Operand::Relative(byte as i8))),
        0xb1 => Some(Instruction::LDA(Operand::IndirectY(byte))),
        0xb3 => Some(Instruction::LAX(Operand::IndirectY(byte))),
        0xb4 => Some(Instruction::LDY(Operand::ZeroPageX(byte))),
        0xb5 => Some(Instruction::LDA(Operand::ZeroPageX(byte))),
        0xb6 => Some(Instruction::LDX(Operand::ZeroPageY(byte))),
        0xb8 => Some(Instruction::CLV),
        0xb9 => Some(Instruction::LDA(Operand::AbsoluteY(word))),
        0xba => Some(Instruction::TSX),
        0xbc => Some(Instruction::LDY(Operand::AbsoluteX(word))),
        0xbd => Some(Instruction::LDA(Operand::AbsoluteX(word))),
        0xbe => Some(Instruction::LDX(Operand::AbsoluteY(word))),
        0xc0 => Some(Instruction::CPY(Operand::Immediate(byte))),
        0xc1 => Some(Instruction::CMP(Operand::IndirectX(byte))),
        0xc4 => Some(Instruction::CPY(Operand::ZeroPage(byte))),
        0xc5 => Some(Instruction::CMP(Operand::ZeroPage(byte))),
        0xc6 => Some(Instruction::DEC(Operand::ZeroPage(byte))),
        0xc8 => Some(Instruction::INY),
        0xc9 => Some(Instruction::CMP(Operand::Immediate(byte))),
        0xca => Some(Instruction::DEX),
        0xcb => Some(Instruction::AXS(Operand::Immediate(byte))),
        0xcc => Some(Instruction::CPY(Operand::Absolute(word))),
        0xcd => Some(Instruction::CMP(Operand::Absolute(word))),
        0xce => Some(Instruction::DEC(Operand::Absolute(word))),
        0xd0 => Some(Instruction::BNE(Operand::Relative(byte as i8))),
        0xd1 => Some(Instruction::CMP(Operand::IndirectY(byte))),
        0xd5 => Some(Instruction::CMP(Operand::ZeroPageX(byte))),
        0xd6 => Some(Instruction::DEC(Operand::ZeroPageX(byte))),
        0xd8 => Some(Instruction::CLD),
        0xd9 => Some(Instruction::CMP(Operand::AbsoluteY(word))),
        0xdd => Some(Instruction::CMP(Operand::AbsoluteX(word))),
        0xde => Some(Instruction::DEC(Operand::AbsoluteX(word))),
        0xe0 => Some(Instruction::CPX(Operand::Immediate(byte))),
        0xe1 => Some(Instruction::SBC(Operand::IndirectX(byte))),
        0xe4 => Some(Instruction::CPX(Operand::ZeroPage(byte))),
        0xe5 => Some(Instruction::SBC(Operand::ZeroPage(byte))),
        0xe6 => Some(Instruction::INC(Operand::ZeroPage(byte))),
        0xe8 => Some(Instruction::INX),
        0xe9 => Some(Instruction::SBC(Operand::Immediate(byte))),
        0xea => Some(Instruction::NOP),
        0xec => Some(Instruction::CPX(Operand::Absolute(word))),
        0xed => Some(Instruction::SBC(Operand::Absolute(word))),
        0xee => Some(Instruction::INC(Operand::Absolute(word))),
        0xf0 => Some(Instruction::BEQ(Operand::Relative(byte as i8))),
        0xf1 => Some(Instruction::SBC(Operand::IndirectY(byte))),
        0xf5 => Some(Instruction::SBC(Operand::ZeroPageX(byte))),
        0xf6 => Some(Instruction::INC(Operand::ZeroPageX(byte))),
        0xf8 => Some(Instruction::SED),
        0xf9 => Some(Instruction::SBC(Operand::AbsoluteY(word))),
        0xfd => Some(Instruction::SBC(Operand::AbsoluteX(word))),
        0xfe => Some(Instruction::INC(Operand::AbsoluteX(word))),
        _ => None,
    }
}

/// Whether the CPU implements `opcode`.
pub open spec fn is_opcode(opcode: u8) -> bool {
    decode_spec(opcode, 0, 0) is Some
}

/// The number of operand bytes that follow `opcode`.
pub open spec fn opcode_operand_bytes(opcode: u8) -> int {
    operand_bytes(operand_of(decode_spec(opcode, 0, 0)->0))
}

/// The clock cycles decoding `opcode` takes: one per operand byte, and one
/// more for STY and STA in zero page,X mode.
pub open spec fn decode_cycles(opcode: u8) -> int {
    opcode_operand_bytes(opcode) + if opcode == 0x94 || opcode == 0x95 {
        1int
    } else {
        0int
    }
}

impl Instruction {
    /// Decodes `opcode`, fetching its operand bytes from the program counter.
    pub fn decode<M: Mmu, T: Tick>(cpu: &mut Cpu6510<M>, opcode: u8, tick: &mut T) -> (r: Instruction)
        requires
            is_opcode(opcode),
            opcode_operand_bytes(opcode) == 2 ==> old(cpu).regs.pc < 0xffff,
        ensures
            final(tick).ticks() == old(tick).ticks() + decode_cycles(opcode),
            Some(r) == decode_spec(
                opcode,
                peek::<M>(old(cpu)@, old(cpu).regs.pc),
                peek_word::<M>(old(cpu)@, old(cpu).regs.pc),
            ),
            final(cpu)@ == with_pc(
                old(cpu)@,
                ((old(cpu).regs.pc + opcode_operand_bytes(opcode)) % 0x10000) as u16,
            ),
            final(cpu).same_wiring(*old(cpu)),
    {
        match opcode {
            0x00 => Instruction::BRK,
            0x01 => Instruction::ORA(Operand::IndirectX(cpu.fetch_byte(tick))),
            0x05 => Instruction::ORA(Operand::ZeroPage(cpu.fetch_byte(tick))),
            0x06 => Instruction::ASL(Operand::ZeroPage(cpu.fetch_byte(tick))),
            0x08 => Instruction::PHP,
            0x09 => Instruction::ORA(Operand::Immediate(cpu.fetch_byte(tick))),
            0x0a => Instruction::ASL(Operand::Accumulator),
            0x0d => Instruction::ORA(Operand::Absolute(cpu.fetch_word(tick))),
            0x0e => Instruction::ASL(Operand::Absolute(cpu.fetch_word(tick))),
            0x10 => Instruction::BPL(Operand::Relative(cpu.fetch_byte(tick) as i8)),
            0x11 => Instruction::ORA(Operand::IndirectY(cpu.fetch_byte(tick))),
            0x15 => Instruction::ORA(Operand::ZeroPageX(cpu.fetch_byte(tick))),
            0x16 => Instruction::ASL(Operand::ZeroPageX(cpu.fetch_byte(tick))),
            0x18 => Instruction::CLC,
            0x19 => Instruction::ORA(Operand::AbsoluteY(cpu.fetch_word(tick))),
            0x1d => Instruction::ORA(Operand::AbsoluteX(cpu.fetch_word(tick))),
            0x1e => Instruction::ASL(Operand::AbsoluteX(cpu.fetch_word(tick))),
            0x20 => Instruction::JSR(Operand::Absolute(cpu.fetch_word(tick))),
            0x21 => Instruction::AND(Operand::IndirectX(cpu.fetch_byte(tick))),
            0x24 => Instruction::BIT(Operand::ZeroPage(cpu.fetch_byte(tick))),
            0x25 => Instruction::AND(Operand::ZeroPage(cpu.fetch_byte(tick))),
            0x26 => Instruction::ROL(Operand::ZeroPage(cpu.fetch_byte(tick))),
            0x28 => Instruction::PLP,
            0x29 => Instruction::AND(Operand::Immediate(cpu.fetch_byte(tick))),
            0x2a => Instruction::ROL(Operand::Accumulator),
            0x2c => Instruction::BIT(Operand::Absolute(cpu.fetch_word(tick))),
            0x2d => Instruction::AND(Operand::Absolute(cpu.fetch_word(tick))),
            0x2e => Instruction::ROL(Operand::Absolute(cpu.fetch_word(tick))),
            0x30 => Instruction::BMI(Operand::Relative(cpu.fetch_byte(tick) as i8)),
            0x31 => Instruction::AND(Operand::IndirectY(cpu.fetch_byte(tick))),
            0x35 => Instruction::AND(Operand::ZeroPageX(cpu.fetch_byte(tick))),
            0x36 => Instruction::ROL(Operand::ZeroPageX(cpu.fetch_byte(tick))),
            0x38 => Instruction::SEC,
            0x39 => Instruction::AND(Operand::AbsoluteY(cpu.fetch_word(tick))),
            0x3d => Instruction::AND(Operand::AbsoluteX(cpu.fetch_word(tick))),
            0x3e => Instruction::ROL(Operand::AbsoluteX(cpu.fetch_word(tick))),
            0x40 => Instruction::RTI,
            0x41 => Instruction::EOR(Operand::IndirectX(cpu.fetch_byte(tick))),
            0x45 => Instruction::EOR(Operand::ZeroPage(cpu.fetch_byte(tick))),
            0x46 => Instruction::LSR(Operand::ZeroPage(cpu.fetch_byte(tick))),
            0x48 => Instruction::PHA,
            0x49 => Instruction::EOR(Operand::Immediate(cpu.fetch_byte(tick))),
            0x4a => Instruction::LSR(Operand::Accumulator),
            0x4c => Instruction::JMP(Operand::Absolute(cpu.fetch_word(tick))),
            0x4d => Instruction::EOR(Operand::Absolute(cpu.fetch_word(tick))),
            0x4e => Instruction::LSR(Operand::Absolute(cpu.fetch_word(tick))),
            0x50 => Instruction::BVC(Operand::Relative(cpu.fetch_byte(tick) as i8)),
            0x51 => Instruction::EOR(Operand::IndirectY(cpu.fetch_byte(tick))),
            0x55 => Instruction::EOR(Operand::ZeroPageX(cpu.fetch_byte(tick))),
            0x56 => Instruction::LSR(Operand::ZeroPageX(cpu.fetch_byte(tick))),
            0x58 => Instruction::CLI,
            0x59 => Instruction::EOR(Operand::AbsoluteY(cpu.fetch_word(tick))),
            0x5d => Instruction::EOR(Operand::AbsoluteX(cpu.fetch_word(tick))),
            0x5e => Instruction::LSR(Operand::AbsoluteX(cpu.fetch_word(tick))),
            0x60 => Instruction::RTS,
            0x61 => Instruction::ADC(Operand::IndirectX(cpu.fetch_byte(tick))),
            0x65 => Instruction::ADC(Operand::ZeroPage(cpu.fetch_byte(tick))),
            0x66 => Instruction::ROR(Operand::ZeroPage(cpu.fetch_byte(tick))),
            0x68 => Instruction::PLA,
            0x69 => Instruction::ADC(Operand::Immediate(cpu.fetch_byte(tick))),
            0x6a => Instruction::ROR(Operand::Accumulator),
            0x6c => Instruction::JMP(Operand::Indirect(cpu.fetch_word(tick))),
            0x6d => Instruction::ADC(Operand::Absolute(cpu.fetch_word(tick))),
            0x6e => Instruction::ROR(Operand::Absolute(cpu.fetch_word(tick))),
            0x70 => Instruction::BVS(Operand::Relative(cpu.fetch_byte(tick) as i8)),
            0x71 => Instruction::ADC(Operand::IndirectY(cpu.fetch_byte(tick))),
            0x75 => Instruction::ADC(Operand::ZeroPageX(cpu.fetch_byte(tick))),
            0x76 => Instruction::ROR(Operand::ZeroPageX(cpu.fetch_byte(tick))),
            0x78 => Instruction::SEI,
            0x79 => Instruction::ADC(Operand::AbsoluteY(cpu.fetch_word(tick))),
            0x7d => Instruction::ADC(Operand::AbsoluteX(cpu.fetch_word(tick))),
            0x7e => Instruction::ROR(Operand::AbsoluteX(cpu.fetch_word(tick))),
            0x81 => Instruction::STA(Operand::IndirectX(cpu.fetch_byte(tick))),
            0x84 => Instruction::STY(Operand::ZeroPage(cpu.fetch_byte(tick))),
            0x85 => Instruction::STA(Operand::ZeroPage(cpu.fetch_byte(tick))),
            0x86 => Instruction::STX(Operand::ZeroPage(cpu.fetch_byte(tick))),
            0x88 => Instruction::DEY,
            0x8a => Instruction::TXA,
            0x8c => Instruction::STY(Operand::Absolute(cpu.fetch_word(tick))),
            0x8d => Instruction::STA(Operand::Absolute(cpu.fetch_word(tick))),
            0x8e => Instruction::STX(Operand::Absolute(cpu.fetch_word(tick))),
            0x90 => Instruction::BCC(Operand::Relative(cpu.fetch_byte(tick) as i8)),
            0x91 => Instruction::STA(Operand::IndirectY(cpu.fetch_byte(tick))),
            0x94 => {
                tick.tick();
                Instruction::STY(Operand::ZeroPageX(cpu.fetch_byte(tick)))
            },
            0x95 => {
                tick.tick();
                Instruction::STA(Operand::ZeroPageX(cpu.fetch_byte(tick)))
            },
            0x96 => Instruction::STX(Operand::ZeroPageY(cpu.fetch_byte(tick))),
            0x98 => Instruction::TYA,
            0x99 => Instruction::STA(Operand::AbsoluteY(cpu.fetch_word(tick))),
            0x9a => Instruction::TXS,
            0x9d => Instruction::STA(Operand::AbsoluteX(cpu.fetch_word(tick))),
            0xa0 => Instruction::LDY(Operand::Immediate(cpu.fetch_byte(tick))),
            0xa1 => Instruction::LDA(Operand::IndirectX(cpu.fetch_byte(tick))),
            0xa2 => Instruction::LDX(Operand::Immediate(cpu.fetch_byte(tick))),
            0xa4 => Instruction::LDY(Operand::ZeroPage(cpu.fetch_byte(tick))),
            0xa5 => Instruction::LDA(Operand::ZeroPage(cpu.fetch_byte(tick))),
            0xa6 => Instruction::LDX(Operand::ZeroPage(cpu.fetch_byte(tick))),
            0xa7 => Instruction::LAX(Operand::ZeroPage(cpu.fetch_byte(tick))),
            0xa8 => Instruction::TAY,
            0xa9 => Instruction::LDA(Operand::Immediate(cpu.fetch_byte(tick))),
            0xaa => Instruction::TAX,
            0xac => Instruction::LDY(Operand::Absolute(cpu.fetch_word(tick))),
            0xad => Instruction::LDA(Operand::Absolute(cpu.fetch_word(tick))),
            0xae => Instruction::LDX(Operand::Absolute(cpu.fetch_word(tick))),
            0xb0 => Instruction::BCS(Operand::Relative(cpu.fetch_byte(tick) as i8)),
            0xb1 => Instruction::LDA(Operand::IndirectY(cpu.fetch_byte(tick))),
            0xb3 => Instruction::LAX(Operand::IndirectY(cpu.fetch_byte(tick))),
            0xb4 => Instruction::LDY(Operand::ZeroPageX(cpu.fetch_byte(tick))),
            0xb5 => Instruction::LDA(Operand::ZeroPageX(cpu.fetch_byte(tick))),
            0xb6 => Instruction::LDX(Operand::ZeroPageY(cpu.fetch_byte(tick))),
            0xb8 => Instruction::CLV,
            0xb9 => Instruction::LDA(Operand::AbsoluteY(cpu.fetch_word(tick))),
            0xba => Instruction::TSX,
            0xbc => Instruction::LDY(Operand::AbsoluteX(cpu.fetch_word(tick))),
            0xbd => Instruction::LDA(Operand::AbsoluteX(cpu.fetch_word(tick))),
            0xbe => Instruction::LDX(Operand::AbsoluteY(cpu.fetch_word(tick))),
            0xc0 => Instruction::CPY(Operand::Immediate(cpu.fetch_byte(tick))),
            0xc1 => Instruction::CMP(Operand::IndirectX(cpu.fetch_byte(tick))),
            0xc4 => Instruction::CPY(Operand::ZeroPage(cpu.fetch_byte(tick))),
            0xc5 => Instruction::CMP(Operand::ZeroPage(cpu.fetch_byte(tick))),
            0xc6 => Instruction::DEC(Operand::ZeroPage(cpu.fetch_byte(tick))),
            0xc8 => Instruction::INY,
            0xc9 => Instruction::CMP(Operand::Immediate(cpu.fetch_byte(tick))),
            0xca => Instruction::DEX,
            0xcb => Instruction::AXS(Operand::Immediate(cpu.fetch_byte(tick))),
            0xcc => Instruction::CPY(Operand::Absolute(cpu.fetch_word(tick))),
            0xcd => Instruction::CMP(Operand::Absolute(cpu.fetch_word(tick))),
            0xce => Instruction::DEC(Operand::Absolute(cpu.fetch_word(tick))),
            0xd0 => Instruction::BNE(Operand::Relative(cpu.fetch_byte(tick) as i8)),
            0xd1 => Instruction::CMP(Operand::IndirectY(cpu.fetch_byte(tick))),
            0xd5 => Instruction::CMP(Operand::ZeroPageX(cpu.fetch_byte(tick))),
            0xd6 => Instruction::DEC(Operand::ZeroPageX(cpu.fetch_byte(tick))),
            0xd8 => Instruction::CLD,
            0xd9 => Instruction::CMP(Operand::AbsoluteY(cpu.fetch_word(tick))),
            0xdd => Instruction::CMP(Operand::AbsoluteX(cpu.fetch_word(tick))),
            0xde => Instruction::DEC(Operand::AbsoluteX(cpu.fetch_word(tick))),
            0xe0 => Instruction::CPX(Operand::Immediate(cpu.fetch_byte(tick))),
            0xe1 => Instruction::SBC(Operand::IndirectX(cpu.fetch_byte(tick))),
            0xe4 => Instruction::CPX(Operand::ZeroPage(cpu.fetch_byte(tick))),
            0xe5 => Instruction::SBC(Operand::ZeroPage(cpu.fetch_byte(tick))),
            0xe6 => Instruction::INC(Operand::ZeroPage(cpu.fetch_byte(tick))),
            0xe8 => Instruction::INX,
            0xe9 => Instruction::SBC(Operand::Immediate(cpu.fetch_byte(tick))),
            0xea => Instruction::NOP,
            0xec => Instruction::CPX(Operand::Absolute(cpu.fetch_word(tick))),
            0xed => Instruction::SBC(Operand::Absolute(cpu.fetch_word(tick))),
            0xee => Instruction::INC(Operand::Absolute(cpu.fetch_word(tick))),
            0xf0 => Instruction::BEQ(Operand::Relative(cpu.fetch_byte(tick) as i8)),
            0xf1 => Instruction::SBC(Operand::IndirectY(cpu.fetch_byte(tick))),
            0xf5 => Instruction::SBC(Operand::ZeroPageX(cpu.fetch_byte(tick))),
            0xf6 => Instruction::INC(Operand::ZeroPageX(cpu.fetch_byte(tick))),
            0xf8 => Instruction::SED,
            0xf9 => Instruction::SBC(Operand::AbsoluteY(cpu.fetch_word(tick))),
            0xfd => Instruction::SBC(Operand::AbsoluteX(cpu.fetch_word(tick))),
            0xfe => Instruction::INC(Operand::AbsoluteX(cpu.fetch_word(tick))),
            _ => Instruction::NOP,
        }
    }
}

} // verus!
