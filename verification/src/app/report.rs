//! The text the debugger prints for a command result.

use vstd::prelude::*;
use crate::common::traits::Mmu;
use crate::cpu::cpu6510::Cpu6510;
use crate::cpu::instruction::{operand_of, Instruction};
use crate::cpu::machine::Registers;
use crate::cpu::operand::Operand;
use super::command::{CommandResult, CpuState};

verus! {

/// The lower-case hexadecimal digit for `d` (0 to 15).
pub open spec fn hex_digit_text(d: int) -> Seq<char> {
    if d == 0 {
        "0"@
    } else if d == 1 {
        "1"@
    } else if d == 2 {
        "2"@
    } else if d == 3 {
        "3"@
    } else if d == 4 {
        "4"@
    } else if d == 5 {
        "5"@
    } else if d == 6 {
        "6"@
    } else if d == 7 {
        "7"@
    } else if d == 8 {
        "8"@
    } else if d == 9 {
        "9"@
    } else if d == 10 {
        "a"@
    } else if d == 11 {
        "b"@
    } else if d == 12 {
        "c"@
    } else if d == 13 {
        "d"@
    } else if d == 14 {
        "e"@
    } else {
        "f"@
    }
}

/// The last `width` hexadecimal digits of `v`, most significant first
/// (leading zeros included).
pub open spec fn hex_text(v: int, width: nat) -> Seq<char>
    decreases width,
{
    if width == 0 {
        seq![]
    } else {
        hex_text(v / 16, (width - 1) as nat) + hex_digit_text(v % 16)
    }
}

/// `s` padded with spaces on the right to `width` characters.
pub open spec fn padded(s: Seq<char>, width: nat) -> Seq<char> {
    if s.len() >= width {
        s
    } else {
        s + Seq::new((width - s.len()) as nat, |_i: int| ' ')
    }
}

/// The bytes of an instruction, each as two hex digits and a space.
pub open spec fn bytes_text(bytes: Seq<u8>) -> Seq<char>
    decreases bytes.len(),
{
    if bytes.len() == 0 {
        seq![]
    } else {
        bytes_text(bytes.drop_last()) + hex_text(bytes.last() as int, 2) + " "@
    }
}

/// `on` when the flags in `mask` are set in `p`, else `off`.
pub open spec fn flag_text(p: u8, mask: u8, on: Seq<char>, off: Seq<char>) -> Seq<char> {
    if p & mask != 0 {
        on
    } else {
        off
    }
}

/// The status flags as letters, upper case when set: N, V, B, D, I, Z, C.
pub open spec fn flag_letters(p: u8) -> Seq<char> {
    flag_text(p, 0x80, "N"@, "n"@) + flag_text(p, 0x40, "V"@, "v"@) + flag_text(p, 0x10, "B"@, "b"@)
        + flag_text(p, 0x08, "D"@, "d"@) + flag_text(p, 0x04, "I"@, "i"@) + flag_text(
        p,
        0x02,
        "Z"@,
        "z"@,
    ) + flag_text(p, 0x01, "C"@, "c"@)
}

/// The status flags as binary digits in the order N V 1 B D I Z C.
pub open spec fn flag_bits(p: u8) -> Seq<char> {
    flag_text(p, 0x80, "1"@, "0"@) + flag_text(p, 0x40, "1"@, "0"@) + "1"@ + flag_text(
        p,
        0x10,
        "1"@,
        "0"@,
    ) + flag_text(p, 0x08, "1"@, "0"@) + flag_text(p, 0x04, "1"@, "0"@) + flag_text(
        p,
        0x02,
        "1"@,
        "0"@,
    ) + flag_text(p, 0x01, "1"@, "0"@)
}

/// One line of execution state: address, instruction bytes and text, the
/// registers and the flags.
pub open spec fn execution_text(cpu: CpuState, bytes: Seq<u8>, text: Seq<char>) -> Seq<char> {
    "$"@ + hex_text(cpu.pc as int, 4) + ": "@ + padded(bytes_text(bytes), 12) + " "@ + padded(
        text,
        16,
    ) + " A:"@ + hex_text(cpu.a as int, 2) + " X:"@ + hex_text(cpu.x as int, 2) + " Y:"@
        + hex_text(cpu.y as int, 2) + " SP:"@ + hex_text(cpu.sp as int, 2) + " "@ + flag_letters(
        cpu.p,
    ) + "\n"@
}

/// The register listing: a heading, then the registers, the processor port
/// and the flags.
pub open spec fn registers_text(cpu: CpuState) -> Seq<char> {
    "PC   A  X  Y  SP 00 01 NV-BDIZC\n"@ + hex_text(cpu.pc as int, 4) + " "@ + hex_text(
        cpu.a as int,
        2,
    ) + " "@ + hex_text(cpu.x as int, 2) + " "@ + hex_text(cpu.y as int, 2) + " "@ + hex_text(
        cpu.sp as int,
        2,
    ) + " "@ + hex_text(cpu.port_00 as int, 2) + " "@ + hex_text(cpu.port_01 as int, 2) + " "@
        + flag_bits(cpu.p) + "\n"@
}

/// The text of byte `i` of a memory dump starting at `address`: a row
/// heading with the row's address every 12 bytes, an extra space every 4,
/// the byte in hex, and a line break after every 12th.
pub open spec fn memory_piece(address: u16, buffer: Seq<u8>, i: int) -> Seq<char> {
    (if i % 12 == 0 {
        "$"@ + hex_text((address + 12 * (i / 12)) % 0x10000, 4) + " "@
    } else {
        seq![]
    }) + (if i % 4 == 0 {
        " "@
    } else {
        seq![]
    }) + " "@ + hex_text(buffer[i] as int, 2) + (if (i + 1) % 12 == 0 {
        "\n"@
    } else {
        seq![]
    })
}

/// The text of the first `n` bytes of a memory dump.
pub open spec fn memory_lines(address: u16, buffer: Seq<u8>, n: int) -> Seq<char>
    decreases n,
{
    if n <= 0 {
        seq![]
    } else {
        memory_lines(address, buffer, n - 1) + memory_piece(address, buffer, n - 1)
    }
}

/// A memory dump, 12 bytes to a line, the last line ended too.
pub open spec fn memory_text(address: u16, buffer: Seq<u8>) -> Seq<char> {
    memory_lines(address, buffer, buffer.len() as int) + if buffer.len() % 12 != 0 {
        "\n"@
    } else {
        seq![]
    }
}

/// Lines of text, each ended by a line break.
pub open spec fn lines_text(lines: Seq<Seq<char>>) -> Seq<char>
    decreases lines.len(),
{
    if lines.len() == 0 {
        seq![]
    } else {
        lines_text(lines.drop_last()) + lines.last() + "\n"@
    }
}

/// The views of a list of strings.
pub open spec fn string_views(v: Seq<String>) -> Seq<Seq<char>> {
    v.map_values(|s: String| s@)
}

/// The text the debugger prints for a result.
pub open spec fn result_text(r: CommandResult) -> Seq<char> {
    match r {
        CommandResult::Empty => seq![],
        CommandResult::Error(e) => "Error: "@ + e@ + "\n"@,
        CommandResult::Deferred => seq![],
        CommandResult::ExecutionState(cpu, instr) => execution_text(
            cpu,
            instr.instr_bytes@,
            instr.instr_text@,
        ),
        CommandResult::Memory(address, buffer) => memory_text(address, buffer@),
        CommandResult::Registers(cpu) => registers_text(cpu),
        CommandResult::Text(lines) => lines_text(string_views(lines@)),
    }
}

/// The one-line register summary of the CPU: A, X, Y and SP in hex, then
/// the flag letters.
pub open spec fn cpu_text(regs: Registers) -> Seq<char> {
    hex_text(regs.a as int, 2) + " "@ + hex_text(regs.x as int, 2) + " "@ + hex_text(
        regs.y as int,
        2,
    ) + " "@ + hex_text(regs.sp as int, 2) + " "@ + flag_letters(regs.p)
}

impl<M: Mmu> Cpu6510<M> {
    /// The one-line register summary of the CPU.
    pub fn to_string(&self) -> (r: String)
        ensures
            r@ == cpu_text(self.regs),
    {
        let flags = flag_letters_string(self.regs.p);
        let mut text = String::new();
        push_hex(&mut text, self.regs.a as u32, 2);
        text.append(" ");
        push_hex(&mut text, self.regs.x as u32, 2);
        text.append(" ");
        push_hex(&mut text, self.regs.y as u32, 2);
        text.append(" ");
        push_hex(&mut text, self.regs.sp as u32, 2);
        text.append(" ");
        text.append(flags.as_str());
        assert(text@ =~= cpu_text(self.regs));
        text
    }
}

/// The hexadecimal digit for `d`.
fn digit_str(d: u32) -> (r: &'static str)
    requires
        d < 16,
    ensures
        r@ == hex_digit_text(d as int),
{
    if d == 0 {
        "0"
    } else if d == 1 {
        "1"
    } else if d == 2 {
        "2"
    } else if d == 3 {
        "3"
    } else if d == 4 {
        "4"
    } else if d == 5 {
        "5"
    } else if d == 6 {
        "6"
    } else if d == 7 {
        "7"
    } else if d == 8 {
        "8"
    } else if d == 9 {
        "9"
    } else if d == 10 {
        "a"
    } else if d == 11 {
        "b"
    } else if d == 12 {
        "c"
    } else if d == 13 {
        "d"
    } else if d == 14 {
        "e"
    } else {
        "f"
    }
}

/// Appends the last `width` hexadecimal digits of `v`.
fn push_hex(out: &mut String, v: u32, width: u32)
    ensures
        final(out)@ == old(out)@ + hex_text(v as int, width as nat),
    decreases width,
{
    if width > 0 {
        push_hex(out, v / 16, width - 1);
        out.append(digit_str(v % 16));
        assert(hex_text(v as int, width as nat) == hex_text((v / 16) as int, (width - 1) as nat)
            + hex_digit_text((v % 16) as int));
    } else {
        assert(old(out)@ + hex_text(v as int, 0) =~= old(out)@);
    }
}

/// Appends `s` padded with spaces to `width` characters.
fn push_padded(out: &mut String, s: &str, width: usize)
    ensures
        final(out)@ == old(out)@ + padded(s@, width as nat),
{
    out.append(s);
    let n = s.unicode_len();
    let mut i: usize = n;
    let ghost start = old(out)@;
    while i < width
        invariant
            n == s@.len(),
            n <= i <= width || (n > width && i == n),
            out@ == start + s@ + Seq::new((i - n) as nat, |_j: int| ' '),
        decreases width - i,
    {
        out.append(" ");
        proof {
            reveal_strlit(" ");
        }
        i = i + 1;
        assert(out@ =~= start + s@ + Seq::new((i - n) as nat, |_j: int| ' '));
    }
    if n >= width {
        assert(Seq::new((i - n) as nat, |_j: int| ' ') =~= Seq::<char>::empty());
        assert(out@ =~= start + s@);
    } else {
        assert(out@ =~= start + (s@ + Seq::new((width - n) as nat, |_j: int| ' ')));
    }
}

/// Appends `on` when the flags in `mask` are set in `p`, else `off`.
fn push_flag(out: &mut String, p: u8, mask: u8, on: &str, off: &str)
    ensures
        final(out)@ == old(out)@ + flag_text(p, mask, on@, off@),
{
    if p & mask != 0 {
        out.append(on);
    } else {
        out.append(off);
    }
}

impl CommandResult {
    /// The text the debugger prints for this result; a deferred result has none.
    pub fn to_string(&self) -> (r: String)
        requires
            !(self is Deferred),
        ensures
            r@ == result_text(*self),
    {
        let mut out = String::new();
        match self {
            CommandResult::Empty => {},
            CommandResult::Error(error) => {
                out.append("Error: ");
                out.append(error.as_str());
                out.append("\n");
            },
            CommandResult::Deferred => {},
            CommandResult::ExecutionState(cpu_state, instruction) => {
                push_execution(&mut out, cpu_state, &instruction.instr_bytes, &instruction.instr_text);
            },
            CommandResult::Memory(address, buffer) => {
                push_memory(&mut out, *address, buffer);
            },
            CommandResult::Registers(cpu_state) => {
                push_registers(&mut out, cpu_state);
            },
            CommandResult::Text(lines) => {
                push_lines(&mut out, lines);
            },
        }
        assert(out@ =~= result_text(*self));
        out
    }
}

/// The flag letters of `p`.
fn flag_letters_string(p: u8) -> (r: String)
    ensures
        r@ == flag_letters(p),
{
    let mut out = String::new();
    push_flag(&mut out, p, 0x80, "N", "n");
    push_flag(&mut out, p, 0x40, "V", "v");
    push_flag(&mut out, p, 0x10, "B", "b");
    push_flag(&mut out, p, 0x08, "D", "d");
    push_flag(&mut out, p, 0x04, "I", "i");
    push_flag(&mut out, p, 0x02, "Z", "z");
    push_flag(&mut out, p, 0x01, "C", "c");
    assert(out@ =~= flag_letters(p));
    out
}

/// The flag bits of `p`.
fn flag_bits_string(p: u8) -> (r: String)
    ensures
        r@ == flag_bits(p),
{
    let mut out = String::new();
    push_flag(&mut out, p, 0x80, "1", "0");
    push_flag(&mut out, p, 0x40, "1", "0");
    out.append("1");
    push_flag(&mut out, p, 0x10, "1", "0");
    push_flag(&mut out, p, 0x08, "1", "0");
    push_flag(&mut out, p, 0x04, "1", "0");
    push_flag(&mut out, p, 0x02, "1", "0");
    push_flag(&mut out, p, 0x01, "1", "0");
    assert(out@ =~= flag_bits(p));
    out
}

/// The bytes of an instruction, each as two hex digits and a space.
fn bytes_string(bytes: &Vec<u8>) -> (r: String)
    ensures
        r@ == bytes_text(bytes@),
{
    let mut instr_bytes = String::new();
    let mut i: usize = 0;
    while i < bytes.len()
        invariant
            i <= bytes@.len(),
            instr_bytes@ == bytes_text(bytes@.subrange(0, i as int)),
        decreases bytes@.len() - i,
    {
        push_hex(&mut instr_bytes, bytes[i] as u32, 2);
        instr_bytes.append(" ");
        let ghost b = bytes@.subrange(0, i + 1);
        assert(b.drop_last() =~= bytes@.subrange(0, i as int));
        i = i + 1;
    }
    assert(bytes@.subrange(0, i as int) =~= bytes@);
    instr_bytes
}

/// Appends the execution state line.
fn push_execution(out: &mut String, cpu: &CpuState, bytes: &Vec<u8>, text: &String)
    ensures
        final(out)@ == old(out)@ + execution_text(*cpu, bytes@, text@),
{
    let instr_bytes = bytes_string(bytes);
    let flags = flag_letters_string(cpu.p);
    let mut line = String::from_str("$");
    push_hex(&mut line, cpu.pc as u32, 4);
    line.append(": ");
    push_padded(&mut line, instr_bytes.as_str(), 12);
    line.append(" ");
    push_padded(&mut line, text.as_str(), 16);
    line.append(" A:");
    push_hex(&mut line, cpu.a as u32, 2);
    line.append(" X:");
    push_hex(&mut line, cpu.x as u32, 2);
    line.append(" Y:");
    push_hex(&mut line, cpu.y as u32, 2);
    line.append(" SP:");
    push_hex(&mut line, cpu.sp as u32, 2);
    line.append(" ");
    line.append(flags.as_str());
    line.append("\n");
    out.append(line.as_str());
}

/// Appends the register listing.
fn push_registers(out: &mut String, cpu: &CpuState)
    ensures
        final(out)@ == old(out)@ + registers_text(*cpu),
{
    let flags = flag_bits_string(cpu.p);
    let mut text = String::from_str("PC   A  X  Y  SP 00 01 NV-BDIZC\n");
    push_hex(&mut text, cpu.pc as u32, 4);
    text.append(" ");
    push_hex(&mut text, cpu.a as u32, 2);
    text.append(" ");
    push_hex(&mut text, cpu.x as u32, 2);
    text.append(" ");
    push_hex(&mut text, cpu.y as u32, 2);
    text.append(" ");
    push_hex(&mut text, cpu.sp as u32, 2);
    text.append(" ");
    push_hex(&mut text, cpu.port_00 as u32, 2);
    text.append(" ");
    push_hex(&mut text, cpu.port_01 as u32, 2);
    text.append(" ");
    text.append(flags.as_str());
    text.append("\n");
    out.append(text.as_str());
}

/// The text of byte `i` of a memory dump, given the address of its row.
fn memory_piece_string(address: u16, row_address: u16, buffer: &Vec<u8>, i: usize) -> (r: String)
    requires
        i < buffer@.len(),
        i % 12 == 0 ==> row_address as int == (address + 12 * (i / 12)) % 0x10000,
    ensures
        r@ == memory_piece(address, buffer@, i as int),
{
    let mut piece = String::new();
    if i % 12 == 0 {
        piece.append("$");
        push_hex(&mut piece, row_address as u32, 4);
        piece.append(" ");
    }
    if i % 4 == 0 {
        piece.append(" ");
    }
    piece.append(" ");
    push_hex(&mut piece, buffer[i] as u32, 2);
    if i % 12 == 11 {
        piece.append("\n");
    }
    assert(piece@ =~= memory_piece(address, buffer@, i as int));
    piece
}

/// Appends a memory dump.
fn push_memory(out: &mut String, address: u16, buffer: &Vec<u8>)
    ensures
        final(out)@ == old(out)@ + memory_text(address, buffer@),
{
    let ghost start = old(out)@;
    let mut row_address = address;
    let mut counter: usize = 0;
    while counter < buffer.len()
        invariant
            counter <= buffer@.len(),
            row_address as int == (address + 12 * ((counter + 11) / 12)) % 0x10000,
            out@ == start + memory_lines(address, buffer@, counter as int),
        decreases buffer@.len() - counter,
    {
        let ghost i = counter as int;
        let piece = memory_piece_string(address, row_address, buffer, counter);
        let ghost before = out@;
        out.append(piece.as_str());
        assert(out@ =~= start + memory_lines(address, buffer@, i + 1));
        if counter % 12 == 0 {
            assert((i + 12) / 12 == i / 12 + 1);
            row_address = row_address.wrapping_add(12);
        } else {
            assert((i + 12) / 12 == (i + 11) / 12);
        }
        counter = counter + 1;
    }
    let ghost body = out@;
    if buffer.len() % 12 != 0 {
        out.append("\n");
    }
    assert(out@ =~= start + memory_text(address, buffer@));
}

/// Appends lines of text, each ended by a line break.
fn push_lines(out: &mut String, lines: &Vec<String>)
    ensures
        final(out)@ == old(out)@ + lines_text(string_views(lines@)),
{
    let ghost start = old(out)@;
    let mut i: usize = 0;
    while i < lines.len()
        invariant
            i <= lines@.len(),
            out@ == start + lines_text(string_views(lines@.subrange(0, i as int))),
        decreases lines@.len() - i,
    {
        out.append(lines[i].as_str());
        out.append("\n");
        let ghost l = string_views(lines@.subrange(0, i + 1));
        assert(l.drop_last() =~= string_views(lines@.subrange(0, i as int)));
        assert(l.last() == lines@[i as int]@);
        i = i + 1;
        assert(out@ =~= start + lines_text(string_views(lines@.subrange(0, i as int))));
    }
    assert(lines@.subrange(0, i as int) =~= lines@);
}


/// The mnemonic of an instruction, in lower case.
pub open spec fn mnemonic(instr: Instruction) -> Seq<char> {
    match instr {
        Instruction::LDA(_) => "lda"@,
        Instruction::LDX(_) => "ldx"@,
        Instruction::LDY(_) => "ldy"@,
        Instruction::STA(_) => "sta"@,
        Instruction::STX(_) => "stx"@,
        Instruction::STY(_) => "sty"@,
        Instruction::ADC(_) => "adc"@,
        Instruction::SBC(_) => "sbc"@,
        Instruction::CMP(_) => "cmp"@,
        Instruction::CPX(_) => "cpx"@,
        Instruction::CPY(_) => "cpy"@,
        Instruction::DEC(_) => "dec"@,
        Instruction::INC(_) => "inc"@,
        Instruction::AND(_) => "and"@,
        Instruction::EOR(_) => "eor"@,
        Instruction::ORA(_) => "ora"@,
        Instruction::ASL(_) => "asl"@,
        Instruction::LSR(_) => "lsr"@,
        Instruction::ROL(_) => "rol"@,
        Instruction::ROR(_) => "ror"@,
        Instruction::BCC(_) => "bcc"@,
        Instruction::BCS(_) => "bcs"@,
        Instruction::BEQ(_) => "beq"@,
        Instruction::BMI(_) => "bmi"@,
        Instruction::BNE(_) => "bne"@,
        Instruction::BPL(_) => "bpl"@,
        Instruction::BVC(_) => "bvc"@,
        Instruction::BVS(_) => "bvs"@,
        Instruction::JMP(_) => "jmp"@,
        Instruction::JSR(_) => "jsr"@,
        Instruction::BIT(_) => "bit"@,
        Instruction::AXS(_) => "axs"@,
        Instruction::LAX(_) => "lax"@,
        Instruction::PHA => "pha"@,
        Instruction::PHP => "php"@,
        Instruction::PLA => "pla"@,
        Instruction::PLP => "plp"@,
        Instruction::TAX => "tax"@,
        Instruction::TAY => "tay"@,
        Instruction::TSX => "tsx"@,
        Instruction::TXA => "txa"@,
        Instruction::TXS => "txs"@,
        Instruction::TYA => "tya"@,
        Instruction::DEX => "dex"@,
        Instruction::DEY => "dey"@,
        Instruction::INX => "inx"@,
        Instruction::INY => "iny"@,
        Instruction::RTS => "rts"@,
        Instruction::BRK => "brk"@,
        Instruction::CLC => "clc"@,
        Instruction::CLD => "cld"@,
        Instruction::CLI => "cli"@,
        Instruction::CLV => "clv"@,
        Instruction::NOP => "nop"@,
        Instruction::SEC => "sec"@,
        Instruction::SED => "sed"@,
        Instruction::SEI => "sei"@,
        Instruction::RTI => "rti"@,
    }
}

/// An operand in assembler notation: `a`, `#$nn`, `$nn`, `$nn,x`, `$nn,y`,
/// `$nnnn`, `$nnnn,x`, `$nnnn,y`, `($nn,x)`, `($nn),y`, `($nnnn)`, and a
/// relative offset as its byte `$nn`.
pub open spec fn operand_text(op: Operand) -> Seq<char> {
    match op {
        Operand::Accumulator => "a"@,
        Operand::Immediate(v) => "#$"@ + hex_text(v as int, 2),
        Operand::ZeroPage(a) => "$"@ + hex_text(a as int, 2),
        Operand::ZeroPageX(a) => "$"@ + hex_text(a as int, 2) + ",x"@,
        Operand::ZeroPageY(a) => "$"@ + hex_text(a as int, 2) + ",y"@,
        Operand::Absolute(a) => "$"@ + hex_text(a as int, 4),
        Operand::AbsoluteX(a) => "$"@ + hex_text(a as int, 4) + ",x"@,
        Operand::AbsoluteY(a) => "$"@ + hex_text(a as int, 4) + ",y"@,
        Operand::IndirectX(a) => "($"@ + hex_text(a as int, 2) + ",x)"@,
        Operand::IndirectY(a) => "($"@ + hex_text(a as int, 2) + "),y"@,
        Operand::Indirect(a) => "($"@ + hex_text(a as int, 4) + ")"@,
        Operand::Relative(o) => "$"@ + hex_text(o as u8 as int, 2),
    }
}

/// An instruction in assembler notation: its mnemonic, then a space and its
/// operand if it has one.
pub open spec fn instruction_text(instr: Instruction) -> Seq<char> {
    match operand_of(instr) {
        Some(op) => mnemonic(instr) + " "@ + operand_text(op),
        None => mnemonic(instr),
    }
}

/// The mnemonic of an instruction, in lower case.
fn mnemonic_str(instr: &Instruction) -> (r: &'static str)
    ensures
        r@ == mnemonic(*instr),
{
    match instr {
        Instruction::LDA(_) => "lda",
        Instruction::LDX(_) => "ldx",
        Instruction::LDY(_) => "ldy",
        Instruction::STA(_) => "sta",
        Instruction::STX(_) => "stx",
        Instruction::STY(_) => "sty",
        Instruction::ADC(_) => "adc",
        Instruction::SBC(_) => "sbc",
        Instruction::CMP(_) => "cmp",
        Instruction::CPX(_) => "cpx",
        Instruction::CPY(_) => "cpy",
        Instruction::DEC(_) => "dec",
        Instruction::INC(_) => "inc",
        Instruction::AND(_) => "and",
        Instruction::EOR(_) => "eor",
        Instruction::ORA(_) => "ora",
        Instruction::ASL(_) => "asl",
        Instruction::LSR(_) => "lsr",
        Instruction::ROL(_) => "rol",
        Instruction::ROR(_) => "ror",
        Instruction::BCC(_) => "bcc",
        Instruction::BCS(_) => "bcs",
        Instruction::BEQ(_) => "beq",
        Instruction::BMI(_) => "bmi",
        Instruction::BNE(_) => "bne",
        Instruction::BPL(_) => "bpl",
        Instruction::BVC(_) => "bvc",
        Instruction::BVS(_) => "bvs",
        Instruction::JMP(_) => "jmp",
        Instruction::JSR(_) => "jsr",
        Instruction::BIT(_) => "bit",
        Instruction::AXS(_) => "axs",
        Instruction::LAX(_) => "lax",
        Instruction::PHA => "pha",
        Instruction::PHP => "php",
        Instruction::PLA => "pla",
        Instruction::PLP => "plp",
        Instruction::TAX => "tax",
        Instruction::TAY => "tay",
        Instruction::TSX => "tsx",
        Instruction::TXA => "txa",
        Instruction::TXS => "txs",
        Instruction::TYA => "tya",
        Instruction::DEX => "dex",
        Instruction::DEY => "dey",
        Instruction::INX => "inx",
        Instruction::INY => "iny",
        Instruction::RTS => "rts",
        Instruction::BRK => "brk",
        Instruction::CLC => "clc",
        Instruction::CLD => "cld",
        Instruction::CLI => "cli",
        Instruction::CLV => "clv",
        Instruction::NOP => "nop",
        Instruction::SEC => "sec",
        Instruction::SED => "sed",
        Instruction::SEI => "sei",
        Instruction::RTI => "rti",
    }
}

/// Appends an operand in assembler notation.
fn push_operand(out: &mut String, op: &Operand)
    ensures
        final(out)@ == old(out)@ + operand_text(*op),
{
    let ghost start = out@;
    match *op {
        Operand::Accumulator => out.append("a"),
        Operand::Immediate(v) => {
            out.append("#$");
            push_hex(out, v as u32, 2);
        },
        Operand::ZeroPage(a) => {
            out.append("$");
            push_hex(out, a as u32, 2);
        },
        Operand::ZeroPageX(a) => {
            out.append("$");
            push_hex(out, a as u32, 2);
            out.append(",x");
        },
        Operand::ZeroPageY(a) => {
            out.append("$");
            push_hex(out, a as u32, 2);
            out.append(",y");
        },
        Operand::Absolute(a) => {
            out.append("$");
            push_hex(out, a as u32, 4);
        },
        Operand::AbsoluteX(a) => {
            out.append("$");
            push_hex(out, a as u32, 4);
            out.append(",x");
        },
        Operand::AbsoluteY(a) => {
            out.append("$");
            push_hex(out, a as u32, 4);
            out.append(",y");
        },
        Operand::IndirectX(a) => {
            out.append("($");
            push_hex(out, a as u32, 2);
            out.append(",x)");
        },
        Operand::IndirectY(a) => {
            out.append("($");
            push_hex(out, a as u32, 2);
            out.append("),y");
        },
        Operand::Indirect(a) => {
            out.append("($");
            push_hex(out, a as u32, 4);
            out.append(")");
        },
        Operand::Relative(o) => {
            out.append("$");
            push_hex(out, (o as u8) as u32, 2);
        },
    }
    proof {
        assert(out@ =~= start + operand_text(*op));
    }
}

impl Instruction {
    /// The instruction in assembler notation, such as `lda #$42`.
    pub fn text(&self) -> (r: String)
        ensures
            r@ == instruction_text(*self),
    {
        let mut out = String::from_str(mnemonic_str(self));
        match operand_text_of(self) {
            Some(op) => {
                out.append(" ");
                push_operand(&mut out, op);
            },
            None => {},
        }
        assert(out@ =~= instruction_text(*self));
        out
    }
}

/// The operand of an instruction, if it has one.
fn operand_text_of(instr: &Instruction) -> (r: Option<&Operand>)
    ensures
        match operand_of(*instr) {
            Some(op) => r == Some(&op),
            None => r is None,
        },
{
    match instr {
        Instruction::LDA(op) => Some(op),
        Instruction::LDX(op) => Some(op),
        Instruction::LDY(op) => Some(op),
        Instruction::STA(op) => Some(op),
        Instruction::STX(op) => Some(op),
        Instruction::STY(op) => Some(op),
        Instruction::ADC(op) => Some(op),
        Instruction::SBC(op) => Some(op),
        Instruction::CMP(op) => Some(op),
        Instruction::CPX(op) => Some(op),
        Instruction::CPY(op) => Some(op),
        Instruction::DEC(op) => Some(op),
        Instruction::INC(op) => Some(op),
        Instruction::AND(op) => Some(op),
        Instruction::EOR(op) => Some(op),
        Instruction::ORA(op) => Some(op),
        Instruction::ASL(op) => Some(op),
        Instruction::LSR(op) => Some(op),
        Instruction::ROL(op) => Some(op),
        Instruction::ROR(op) => Some(op),
        Instruction::BCC(op) => Some(op),
        Instruction::BCS(op) => Some(op),
        Instruction::BEQ(op) => Some(op),
        Instruction::BMI(op) => Some(op),
        Instruction::BNE(op) => Some(op),
        Instruction::BPL(op) => Some(op),
        Instruction::BVC(op) => Some(op),
        Instruction::BVS(op) => Some(op),
        Instruction::JMP(op) => Some(op),
        Instruction::JSR(op) => Some(op),
        Instruction::BIT(op) => Some(op),
        Instruction::AXS(op) => Some(op),
        Instruction::LAX(op) => Some(op),
        _ => None,
    }
}

} // verus!
