//! The disassembler: decodes the instruction stored at an address without
//! executing it.

use vstd::prelude::*;
use crate::common::tick::TickCounter;
use crate::common::traits::Mmu;
use crate::cpu::cpu6510::Cpu6510;
use crate::cpu::instruction::{decode_spec, is_opcode, opcode_operand_bytes, Instruction};
use crate::cpu::machine::{peek, peek_word};
use crate::cpu::operand::Operand;

verus! {

/// Reads instructions out of the memory a CPU sees.
pub struct Disassembler<'a, M: Mmu> {
    pub cpu: &'a Cpu6510<M>,
}

/// Whether the instruction at `address` can be read: its opcode is one the
/// CPU implements and its operand bytes lie below the top of memory.
pub open spec fn disassembly_ok<M: Mmu>(cpu: &Cpu6510<M>, address: u16) -> bool {
    let opcode = peek::<M>(cpu@, address);
    &&& is_opcode(opcode)
    &&& address + opcode_operand_bytes(opcode) <= 0xffff
}

impl<'a, M: Mmu> Disassembler<'a, M> {
    /// A disassembler reading through `cpu`.
    pub fn new(cpu: &'a Cpu6510<M>) -> (r: Self)
        ensures
            r.cpu == cpu,
    {
        Self { cpu }
    }

    /// The instruction at `address` and its length in bytes: the same
    /// instruction the CPU decodes from those bytes.
    pub fn disassemble(&self, address: u16) -> (r: (Instruction, usize))
        requires
            disassembly_ok(self.cpu, address),
        ensures
            Some(r.0) == decode_spec(
                peek::<M>(self.cpu@, address),
                peek::<M>(self.cpu@, (address + 1) as u16),
                peek_word::<M>(self.cpu@, (address + 1) as u16),
            ),
            r.1 == 1 + opcode_operand_bytes(peek::<M>(self.cpu@, address)),
    {
        let opcode = self.cpu.read(address);
        match opcode {
            0x00 => (Instruction::BRK, 1),
            0x01 => (Instruction::ORA(Operand::IndirectX(self.fetch_byte(address + 1))), 2),
            0x05 => (Instruction::ORA(Operand::ZeroPage(self.fetch_byte(address + 1))), 2),
            0x06 => (Instruction::ASL(Operand::ZeroPage(self.fetch_byte(address + 1))), 2),
            0x08 => (Instruction::PHP, 1),
            0x09 => (Instruction::ORA(Operand::Immediate(self.fetch_byte(address + 1))), 2),
            0x0a => (Instruction::ASL(Operand::Accumulator), 1),
            0x0d => (Instruction::ORA(Operand::Absolute(self.fetch_word(address + 1))), 3),
            0x0e => (Instruction::ASL(Operand::Absolute(self.fetch_word(address + 1))), 3),
            0x10 => (Instruction::BPL(Operand::Relative(self.fetch_byte(address + 1) as i8)), 2),
            0x11 => (Instruction::ORA(Operand::IndirectY(self.fetch_byte(address + 1))), 2),
            0x15 => (Instruction::ORA(Operand::ZeroPageX(self.fetch_byte(address + 1))), 2),
            0x16 => (Instruction::ASL(Operand::ZeroPageX(self.fetch_byte(address + 1))), 2),
            0x18 => (Instruction::CLC, 1),
            0x19 => (Instruction::ORA(Operand::AbsoluteY(self.fetch_word(address + 1))), 3),
            0x1d => (Instruction::ORA(Operand::AbsoluteX(self.fetch_word(address + 1))), 3),
            0x1e => (Instruction::ASL(Operand::AbsoluteX(self.fetch_word(address + 1))), 3),
            0x20 => (Instruction::JSR(Operand::Absolute(self.fetch_word(address + 1))), 3),
            0x21 => (Instruction::AND(Operand::IndirectX(self.fetch_byte(address + 1))), 2),
            0x24 => (Instruction::BIT(Operand::ZeroPage(self.fetch_byte(address + 1))), 2),
            0x25 => (Instruction::AND(Operand::ZeroPage(self.fetch_byte(address + 1))), 2),
            0x26 => (Instruction::ROL(Operand::ZeroPage(self.fetch_byte(address + 1))), 2),
            0x28 => (Instruction::PLP, 1),
            0x29 => (Instruction::AND(Operand::Immediate(self.fetch_byte(address + 1))), 2),
            0x2a => (Instruction::ROL(Operand::Accumulator), 1),
            0x2c => (Instruction::BIT(Operand::Absolute(self.fetch_word(address + 1))), 3),
            0x2d => (Instruction::AND(Operand::Absolute(self.fetch_word(address + 1))), 3),
            0x2e => (Instruction::ROL(Operand::Absolute(self.fetch_word(address + 1))), 3),
            0x30 => (Instruction::BMI(Operand::Relative(self.fetch_byte(address + 1) as i8)), 2),
            0x31 => (Instruction::AND(Operand::IndirectY(self.fetch_byte(address + 1))), 2),
            0x35 => (Instruction::AND(Operand::ZeroPageX(self.fetch_byte(address + 1))), 2),
            0x36 => (Instruction::ROL(Operand::ZeroPageX(self.fetch_byte(address + 1))), 2),
            0x38 => (Instruction::SEC, 1),
            0x39 => (Instruction::AND(Operand::AbsoluteY(self.fetch_word(address + 1))), 3),
            0x3d => (Instruction::AND(Operand::AbsoluteX(self.fetch_word(address + 1))), 3),
            0x3e => (Instruction::ROL(Operand::AbsoluteX(self.fetch_word(address + 1))), 3),
            0x40 => (Instruction::RTI, 1),
            0x41 => (Instruction::EOR(Operand::IndirectX(self.fetch_byte(address + 1))), 2),
            0x45 => (Instruction::EOR(Operand::ZeroPage(self.fetch_byte(address + 1))), 2),
            0x46 => (Instruction::LSR(Operand::ZeroPage(self.fetch_byte(address + 1))), 2),
            0x48 => (Instruction::PHA, 1),
            0x49 => (Instruction::EOR(Operand::Immediate(self.fetch_byte(address + 1))), 2),
            0x4a => (Instruction::LSR(Operand::Accumulator), 1),
            0x4c => (Instruction::JMP(Operand::Absolute(self.fetch_word(address + 1))), 3),
            0x4d => (Instruction::EOR(Operand::Absolute(self.fetch_word(address + 1))), 3),
            0x4e => (Instruction::LSR(Operand::Absolute(self.fetch_word(address + 1))), 3),
            0x50 => (Instruction::BVC(Operand::Relative(self.fetch_byte(address + 1) as i8)), 2),
            0x51 => (Instruction::EOR(Operand::IndirectY(self.fetch_byte(address + 1))), 2),
            0x55 => (Instruction::EOR(Operand::ZeroPageX(self.fetch_byte(address + 1))), 2),
            0x56 => (Instruction::LSR(Operand::ZeroPageX(self.fetch_byte(address + 1))), 2),
            0x58 => (Instruction::CLI, 1),
            0x59 => (Instruction::EOR(Operand::AbsoluteY(self.fetch_word(address + 1))), 3),
            0x5d => (Instruction::EOR(Operand::AbsoluteX(self.fetch_word(address + 1))), 3),
            0x5e => (Instruction::LSR(Operand::AbsoluteX(self.fetch_word(address + 1))), 3),
            0x60 => (Instruction::RTS, 1),
            0x61 => (Instruction::ADC(Operand::IndirectX(self.fetch_byte(address + 1))), 2),
            0x65 => (Instruction::ADC(Operand::ZeroPage(self.fetch_byte(address + 1))), 2),
            0x66 => (Instruction::ROR(Operand::ZeroPage(self.fetch_byte(address + 1))), 2),
            0x68 => (Instruction::PLA, 1),
            0x69 => (Instruction::ADC(Operand::Immediate(self.fetch_byte(address + 1))), 2),
            0x6a => (Instruction::ROR(Operand::Accumulator), 1),
            0x6c => (Instruction::JMP(Operand::Indirect(self.fetch_word(address + 1))), 3),
            0x6d => (Instruction::ADC(Operand::Absolute(self.fetch_word(address + 1))), 3),
            0x6e => (Instruction::ROR(Operand::Absolute(self.fetch_word(address + 1))), 3),
            0x70 => (Instruction::BVS(Operand::Relative(self.fetch_byte(address + 1) as i8)), 2),
            0x71 => (Instruction::ADC(Operand::IndirectY(self.fetch_byte(address + 1))), 2),
            0x75 => (Instruction::ADC(Operand::ZeroPageX(self.fetch_byte(address + 1))), 2),
            0x76 => (Instruction::ROR(Operand::ZeroPageX(self.fetch_byte(address + 1))), 2),
            0x78 => (Instruction::SEI, 1),
            0x79 => (Instruction::ADC(Operand::AbsoluteY(self.fetch_word(address + 1))), 3),
            0x7d => (Instruction::ADC(Operand::AbsoluteX(self.fetch_word(address + 1))), 3),
            0x7e => (Instruction::ROR(Operand::AbsoluteX(self.fetch_word(address + 1))), 3),
            0x81 => (Instruction::STA(Operand::IndirectX(self.fetch_byte(address + 1))), 2),
            0x84 => (Instruction::STY(Operand::ZeroPage(self.fetch_byte(address + 1))), 2),
            0x85 => (Instruction::STA(Operand::ZeroPage(self.fetch_byte(address + 1))), 2),
            0x86 => (Instruction::STX(Operand::ZeroPage(self.fetch_byte(address + 1))), 2),
            0x88 => (Instruction::DEY, 1),
            0x8a => (Instruction::TXA, 1),
            0x8c => (Instruction::STY(Operand::Absolute(self.fetch_word(address + 1))), 3),
            0x8d => (Instruction::STA(Operand::Absolute(self.fetch_word(address + 1))), 3),
            0x8e => (Instruction::STX(Operand::Absolute(self.fetch_word(address + 1))), 3),
            0x90 => (Instruction::BCC(Operand::Relative(self.fetch_byte(address + 1) as i8)), 2),
            0x91 => (Instruction::STA(Operand::IndirectY(self.fetch_byte(address + 1))), 2),
            0x94 => (Instruction::STY(Operand::ZeroPageX(self.fetch_byte(address + 1))), 2),
            0x95 => (Instruction::STA(Operand::ZeroPageX(self.fetch_byte(address + 1))), 2),
            0x96 => (Instruction::STX(Operand::ZeroPageY(self.fetch_byte(address + 1))), 2),
            0x98 => (Instruction::TYA, 1),
            0x99 => (Instruction::STA(Operand::AbsoluteY(self.fetch_word(address + 1))), 3),
            0x9a => (Instruction::TXS, 1),
            0x9d => (Instruction::STA(Operand::AbsoluteX(self.fetch_word(address + 1))), 3),
            0xa0 => (Instruction::LDY(Operand::Immediate(self.fetch_byte(address + 1))), 2),
            0xa1 => (Instruction::LDA(Operand::IndirectX(self.fetch_byte(address + 1))), 2),
            0xa2 => (Instruction::LDX(Operand::Immediate(self.fetch_byte(address + 1))), 2),
            0xa4 => (Instruction::LDY(Operand::ZeroPage(self.fetch_byte(address + 1))), 2),
            0xa5 => (Instruction::LDA(Operand::ZeroPage(self.fetch_byte(address + 1))), 2),
            0xa6 => (Instruction::LDX(Operand::ZeroPage(self.fetch_byte(address + 1))), 2),
            0xa7 => (Instruction::LAX(Operand::ZeroPage(self.fetch_byte(address + 1))), 2),
            0xa8 => (Instruction::TAY, 1),
            0xa9 => (Instruction::LDA(Operand::Immediate(self.fetch_byte(address + 1))), 2),
            0xaa => (Instruction::TAX, 1),
            0xac => (Instruction::LDY(Operand::Absolute(self.fetch_word(address + 1))), 3),
            0xad => (Instruction::LDA(Operand::Absolute(self.fetch_word(address + 1))), 3),
            0xae => (Instruction::LDX(Operand::Absolute(self.fetch_word(address + 1))), 3),
            0xb0 => (Instruction::BCS(Operand::Relative(self.fetch_byte(address + 1) as i8)), 2),
            0xb1 => (Instruction::LDA(Operand::IndirectY(self.fetch_byte(address + 1))), 2),
            0xb3 => (Instruction::LAX(Operand::IndirectY(self.fetch_byte(address + 1))), 2),
            0xb4 => (Instruction::LDY(Operand::ZeroPageX(self.fetch_byte(address + 1))), 2),
            0xb5 => (Instruction::LDA(Operand::ZeroPageX(self.fetch_byte(address + 1))), 2),
            0xb6 => (Instruction::LDX(Operand::ZeroPageY(self.fetch_byte(address + 1))), 2),
            0xb8 => (Instruction::CLV, 1),
            0xb9 => (Instruction::LDA(Operand::AbsoluteY(self.fetch_word(address + 1))), 3),
            0xba => (Instruction::TSX, 1),
            0xbc => (Instruction::LDY(Operand::AbsoluteX(self.fetch_word(address + 1))), 3),
            0xbd => (Instruction::LDA(Operand::AbsoluteX(self.fetch_word(address + 1))), 3),
            0xbe => (Instruction::LDX(Operand::AbsoluteY(self.fetch_word(address + 1))), 3),
            0xc0 => (Instruction::CPY(Operand::Immediate(self.fetch_byte(address + 1))), 2),
            0xc1 => (Instruction::CMP(Operand::IndirectX(self.fetch_byte(address + 1))), 2),
            0xc4 => (Instruction::CPY(Operand::ZeroPage(self.fetch_byte(address + 1))), 2),
            0xc5 => (Instruction::CMP(Operand::ZeroPage(self.fetch_byte(address + 1))), 2),
            0xc6 => (Instruction::DEC(Operand::ZeroPage(self.fetch_byte(address + 1))), 2),
            0xc8 => (Instruction::INY, 1),
            0xc9 => (Instruction::CMP(Operand::Immediate(self.fetch_byte(address + 1))), 2),
            0xca => (Instruction::DEX, 1),
            0xcb => (Instruction::AXS(Operand::Immediate(self.fetch_byte(address + 1))), 2),
            0xcc => (Instruction::CPY(Operand::Absolute(self.fetch_word(address + 1))), 3),
            0xcd => (Instruction::CMP(Operand::Absolute(self.fetch_word(address + 1))), 3),
            0xce => (Instruction::DEC(Operand::Absolute(self.fetch_word(address + 1))), 3),
            0xd0 => (Instruction::BNE(Operand::Relative(self.fetch_byte(address + 1) as i8)), 2),
            0xd1 => (Instruction::CMP(Operand::IndirectY(self.fetch_byte(address + 1))), 2),
            0xd5 => (Instruction::CMP(Operand::ZeroPageX(self.fetch_byte(address + 1))), 2),
            0xd6 => (Instruction::DEC(Operand::ZeroPageX(self.fetch_byte(address + 1))), 2),
            0xd8 => (Instruction::CLD, 1),
            0xd9 => (Instruction::CMP(Operand::AbsoluteY(self.fetch_word(address + 1))), 3),
            0xdd => (Instruction::CMP(Operand::AbsoluteX(self.fetch_word(address + 1))), 3),
            0xde => (Instruction::DEC(Operand::AbsoluteX(self.fetch_word(address + 1))), 3),
            0xe0 => (Instruction::CPX(Operand::Immediate(self.fetch_byte(address + 1))), 2),
            0xe1 => (Instruction::SBC(Operand::IndirectX(self.fetch_byte(address + 1))), 2),
            0xe4 => (Instruction::CPX(Operand::ZeroPage(self.fetch_byte(address + 1))), 2),
            0xe5 => (Instruction::SBC(Operand::ZeroPage(self.fetch_byte(address + 1))), 2),
            0xe6 => (Instruction::INC(Operand::ZeroPage(self.fetch_byte(address + 1))), 2),
            0xe8 => (Instruction::INX, 1),
            0xe9 => (Instruction::SBC(Operand::Immediate(self.fetch_byte(address + 1))), 2),
            0xea => (Instruction::NOP, 1),
            0xec => (Instruction::CPX(Operand::Absolute(self.fetch_word(address + 1))), 3),
            0xed => (Instruction::SBC(Operand::Absolute(self.fetch_word(address + 1))), 3),
            0xee => (Instruction::INC(Operand::Absolute(self.fetch_word(address + 1))), 3),
            0xf0 => (Instruction::BEQ(Operand::Relative(self.fetch_byte(address + 1) as i8)), 2),
            0xf1 => (Instruction::SBC(Operand::IndirectY(self.fetch_byte(address + 1))), 2),
            0xf5 => (Instruction::SBC(Operand::ZeroPageX(self.fetch_byte(address + 1))), 2),
            0xf6 => (Instruction::INC(Operand::ZeroPageX(self.fetch_byte(address + 1))), 2),
            0xf8 => (Instruction::SED, 1),
            0xf9 => (Instruction::SBC(Operand::AbsoluteY(self.fetch_word(address + 1))), 3),
            0xfd => (Instruction::SBC(Operand::AbsoluteX(self.fetch_word(address + 1))), 3),
            0xfe => (Instruction::INC(Operand::AbsoluteX(self.fetch_word(address + 1))), 3),
            _ => (Instruction::NOP, 1),
        }
    }

    /// The byte at `address`.
    fn fetch_byte(&self, address: u16) -> (r: u8)
        ensures
            r == peek::<M>(self.cpu@, address),
    {
        self.cpu.read(address)
    }

    /// The little-endian word at `address`.
    fn fetch_word(&self, address: u16) -> (r: u16)
        requires
            address < 0xffff,
        ensures
            r == peek_word::<M>(self.cpu@, address),
    {
        let mut idle = TickCounter::new();
        self.cpu.read_internal_u16(address, &mut idle)
    }
}

} // verus!
