//! The debugger's commands, their results, and the state reported with them.

use vstd::prelude::*;
use std::sync::mpsc::Sender;
use crate::common::traits::Mmu;
use crate::cpu::cpu6510::Cpu6510;
use crate::cpu::machine::{peek, with_regs, Registers};

verus! {

/// The sending half of a channel, carried through the library as is.
#[verifier::external_type_specification]
#[verifier::external_body]
#[verifier::reject_recursive_types(T)]
pub struct ExSender<T>(Sender<T>);

/// The CPU registers and processor port as the debugger shows them.
pub struct CpuState {
    pub a: u8,
    pub x: u8,
    pub y: u8,
    pub sp: u8,
    pub p: u8,
    pub pc: u16,
    pub port_00: u8,
    pub port_01: u8,
}

/// The registers and processor port a remote debugger reads.
pub struct RegData {
    pub a: u8,
    pub x: u8,
    pub y: u8,
    pub p: u8,
    pub sp: u8,
    pub pc: u16,
    pub port_00: u8,
    pub port_01: u8,
}

/// A register write a remote debugger asks for.
#[derive(Clone, Copy, PartialEq, Eq, Structural)]
pub enum RegOp {
    SetA(u8),
    SetX(u8),
    SetY(u8),
    SetP(u8),
    SetSP(u8),
    SetPC(u16),
}

/// The registers after one register write.
pub open spec fn reg_op_applied(r: Registers, op: RegOp) -> Registers {
    match op {
        RegOp::SetA(v) => Registers { a: v, ..r },
        RegOp::SetX(v) => Registers { x: v, ..r },
        RegOp::SetY(v) => Registers { y: v, ..r },
        RegOp::SetP(v) => Registers { p: v, ..r },
        RegOp::SetSP(v) => Registers { sp: v, ..r },
        RegOp::SetPC(v) => Registers { pc: v, ..r },
    }
}

/// The registers after a list of register writes, in order.
pub open spec fn reg_ops_applied(r: Registers, ops: Seq<RegOp>) -> Registers
    decreases ops.len(),
{
    if ops.len() == 0 {
        r
    } else {
        reg_op_applied(reg_ops_applied(r, ops.drop_last()), ops.last())
    }
}

/// The registers and the processor port's two registers of `cpu`.
pub fn reg_read<M: Mmu>(cpu: &Cpu6510<M>) -> (r: RegData)
    ensures
        r.a == cpu.regs.a,
        r.x == cpu.regs.x,
        r.y == cpu.regs.y,
        r.p == cpu.regs.p,
        r.sp == cpu.regs.sp,
        r.pc == cpu.regs.pc,
        r.port_00 == peek::<M>(cpu@, 0),
        r.port_01 == peek::<M>(cpu@, 1),
{
    RegData {
        a: cpu.get_a(),
        x: cpu.get_x(),
        y: cpu.get_y(),
        p: cpu.get_p(),
        sp: cpu.get_sp(),
        pc: cpu.get_pc(),
        port_00: cpu.read(0x00),
        port_01: cpu.read(0x01),
    }
}

/// Applies the register writes to `cpu`, in order.
pub fn reg_write<M: Mmu>(cpu: &mut Cpu6510<M>, ops: &Vec<RegOp>)
    ensures
        final(cpu)@ == with_regs(old(cpu)@, reg_ops_applied(old(cpu).regs, ops@)),
        final(cpu).same_wiring(*old(cpu)),
{
    let ghost start = *cpu;
    let mut i: usize = 0;
    assert(ops@.take(0) =~= Seq::<RegOp>::empty());
    while i < ops.len()
        invariant
            i <= ops@.len(),
            cpu@ == with_regs(start@, reg_ops_applied(start.regs, ops@.take(i as int))),
            cpu.same_wiring(start),
        decreases ops@.len() - i,
    {
        assert(ops@.take(i + 1).drop_last() =~= ops@.take(i as int));
        match ops[i] {
            RegOp::SetA(v) => cpu.set_a(v),
            RegOp::SetX(v) => cpu.set_x(v),
            RegOp::SetY(v) => cpu.set_y(v),
            RegOp::SetP(v) => cpu.set_p(v),
            RegOp::SetSP(v) => cpu.set_sp(v),
            RegOp::SetPC(v) => cpu.set_pc(v),
        }
        i = i + 1;
    }
    assert(ops@.take(i as int) =~= ops@);
}

/// An instruction as the debugger shows it: opcode, bytes and text.
pub struct InstructionInfo {
    pub opcode: u8,
    pub instr_bytes: Vec<u8>,
    pub instr_text: String,
}

/// The system state sent with every response.
pub struct SystemState {
    pub pc: u16,
}

/// A debugger command.
pub enum Command {
    Attach(Sender<Response>),
    Detach,
    Break,
    // Machine
    Goto(u16),
    Io(u16),
    Next(u16),
    Registers,
    Reset(bool),
    Return,
    Screen,
    Step(u16),
    Stopwatch(bool),
    // Memory
    Disassemble(Option<u16>, Option<u16>),
    Compare(u16, u16, u16),
    Fill(u16, u16, Vec<u8>),
    Hunt(u16, u16, Vec<u8>),
    MemChar(u16),
    MemPetscii(u16, Option<u16>),
    Move(u16, u16, u16),
    Read(u16, Option<u16>),
    Write(u16, Vec<u8>),
    // Monitor
    Exit,
    Help(Option<String>),
    Quit,
    Radix(Option<u16>),
    // Breakpoints
    BpDelete(Option<u16>),
    BpDisable(Option<u16>),
    BpEnable(Option<u16>),
    BpIgnore(u16, u16),
    BpList,
    BpSet(u16),
    BpUntil(u16),
}

/// A command as a mathematical value: byte lists become sequences and the
/// channel of an attach is left out.
pub enum CommandView {
    Attach,
    Detach,
    Break,
    Goto(u16),
    Io(u16),
    Next(u16),
    Registers,
    Reset(bool),
    Return,
    Screen,
    Step(u16),
    Stopwatch(bool),
    Disassemble(Option<u16>, Option<u16>),
    Compare(u16, u16, u16),
    Fill(u16, u16, Seq<u8>),
    Hunt(u16, u16, Seq<u8>),
    MemChar(u16),
    MemPetscii(u16, Option<u16>),
    Move(u16, u16, u16),
    Read(u16, Option<u16>),
    Write(u16, Seq<u8>),
    Exit,
    Help(Option<Seq<char>>),
    Quit,
    Radix(Option<u16>),
    BpDelete(Option<u16>),
    BpDisable(Option<u16>),
    BpEnable(Option<u16>),
    BpIgnore(u16, u16),
    BpList,
    BpSet(u16),
    BpUntil(u16),
}

impl View for Command {
    type V = CommandView;

    open spec fn view(&self) -> CommandView {
        match self {
            Command::Attach(_) => CommandView::Attach,
            Command::Detach => CommandView::Detach,
            Command::Break => CommandView::Break,
            Command::Goto(a) => CommandView::Goto(*a),
            Command::Io(a) => CommandView::Io(*a),
            Command::Next(n) => CommandView::Next(*n),
            Command::Registers => CommandView::Registers,
            Command::Reset(hard) => CommandView::Reset(*hard),
            Command::Return => CommandView::Return,
            Command::Screen => CommandView::Screen,
            Command::Step(n) => CommandView::Step(*n),
            Command::Stopwatch(reset) => CommandView::Stopwatch(*reset),
            Command::Disassemble(s, e) => CommandView::Disassemble(*s, *e),
            Command::Compare(s, e, t) => CommandView::Compare(*s, *e, *t),
            Command::Fill(s, e, d) => CommandView::Fill(*s, *e, d@),
            Command::Hunt(s, e, d) => CommandView::Hunt(*s, *e, d@),
            Command::MemChar(a) => CommandView::MemChar(*a),
            Command::MemPetscii(s, e) => CommandView::MemPetscii(*s, *e),
            Command::Move(s, e, t) => CommandView::Move(*s, *e, *t),
            Command::Read(s, e) => CommandView::Read(*s, *e),
            Command::Write(a, d) => CommandView::Write(*a, d@),
            Command::Exit => CommandView::Exit,
            Command::Help(topic) => CommandView::Help(match topic {
                Some(t) => Some(t@),
                None => None,
            }),
            Command::Quit => CommandView::Quit,
            Command::Radix(r) => CommandView::Radix(*r),
            Command::BpDelete(i) => CommandView::BpDelete(*i),
            Command::BpDisable(i) => CommandView::BpDisable(*i),
            Command::BpEnable(i) => CommandView::BpEnable(*i),
            Command::BpIgnore(i, c) => CommandView::BpIgnore(*i, *c),
            Command::BpList => CommandView::BpList,
            Command::BpSet(a) => CommandView::BpSet(*a),
            Command::BpUntil(a) => CommandView::BpUntil(*a),
        }
    }
}

/// The outcome of a command.
pub enum CommandResult {
    Empty,
    Error(String),
    Deferred,
    ExecutionState(CpuState, InstructionInfo),
    Memory(u16, Vec<u8>),
    Registers(CpuState),
    Text(Vec<String>),
}

/// A command's result together with the system state.
pub struct Response(pub CommandResult, pub SystemState);

} // verus!
