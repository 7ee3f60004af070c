use zinc64::common::{IoPort, IrqLine, Pin, Ram, TickCounter};
use zinc64::cpu::{Cpu6510, Flag, Instruction, Interrupt, Operand};

fn setup_cpu() -> Cpu6510<Ram> {
    let ba_line = Pin::new_high();
    let cpu_io_port = IoPort::new(0x00, 0xff);
    let cpu_irq = IrqLine::new("irq");
    let cpu_nmi = IrqLine::new("nmi");
    let mem = Ram::new(0x10000);
    Cpu6510::new(ba_line, cpu_io_port, cpu_irq, cpu_nmi, mem)
}

#[test]
fn adc_80_16() {
    let mut tick_fn = TickCounter::new();
    let mut cpu = setup_cpu();
    cpu.set_a(80);
    cpu.set_flag(Flag::Carry, false);
    cpu.execute(&Instruction::ADC(Operand::Immediate(16)), &mut tick_fn);
    assert_eq!(96, cpu.get_a());
    assert_eq!(false, cpu.test_flag(Flag::Carry));
    assert_eq!(false, cpu.test_flag(Flag::Negative));
    assert_eq!(false, cpu.test_flag(Flag::Overflow));
}

#[test]
fn inc_with_overflow() {
    let mut tick_fn = TickCounter::new();
    let mut cpu = setup_cpu();
    cpu.set_a(0xff);
    cpu.execute(&Instruction::INC(Operand::Accumulator), &mut tick_fn);
    assert_eq!(0x00, cpu.get_a());
    assert_eq!(false, cpu.test_flag(Flag::Negative));
    assert_eq!(true, cpu.test_flag(Flag::Zero));
}

#[test]
fn decode_brk() {
    let mut tick_fn = TickCounter::new();
    let mut cpu = setup_cpu();
    let valid = match Instruction::decode(&mut cpu, 0x00, &mut tick_fn) {
        Instruction::BRK => true,
        _ => false,
    };
    assert_eq!(true, valid);
}

#[test]
fn decode_lda_absolute() {
    let mut tick_fn = TickCounter::new();
    let mut cpu = setup_cpu();
    let valid = match Instruction::decode(&mut cpu, 0xad, &mut tick_fn) {
        Instruction::LDA(Operand::Absolute(_)) => true,
        _ => false,
    };
    assert_eq!(true, valid);
}

#[test]
fn address_zeropage() {
    let mut tick_fn = TickCounter::new();
    let cpu = setup_cpu();
    let op = Operand::ZeroPage(0x10);
    assert_eq!(0x0010, op.ea(&cpu, &mut tick_fn));
}

#[test]
fn address_zeropagex() {
    let mut tick_fn = TickCounter::new();
    let mut cpu = setup_cpu();
    cpu.set_x(0x01);
    let op = Operand::ZeroPageX(0x10);
    assert_eq!(0x0011, op.ea(&cpu, &mut tick_fn));
}

#[test]
fn address_zeropagex_wrapping() {
    let mut tick_fn = TickCounter::new();
    let mut cpu = setup_cpu();
    cpu.set_x(0x03);
    let op = Operand::ZeroPageX(0xff);
    assert_eq!(0x0002, op.ea(&cpu, &mut tick_fn));
}

#[test]
fn address_zeropagey() {
    let mut tick_fn = TickCounter::new();
    let mut cpu = setup_cpu();
    cpu.set_y(0x01);
    let op = Operand::ZeroPageY(0x10);
    assert_eq!(0x0011, op.ea(&cpu, &mut tick_fn));
}

#[test]
fn address_zeropagey_wrapping() {
    let mut tick_fn = TickCounter::new();
    let mut cpu = setup_cpu();
    cpu.set_y(0x03);
    let op = Operand::ZeroPageY(0xff);
    assert_eq!(0x0002, op.ea(&cpu, &mut tick_fn));
}

#[test]
fn address_absolute() {
    let mut tick_fn = TickCounter::new();
    let cpu = setup_cpu();
    let op = Operand::Absolute(0x0100);
    assert_eq!(0x0100, op.ea(&cpu, &mut tick_fn));
}

#[test]
fn address_absolutex() {
    let mut tick_fn = TickCounter::new();
    let mut cpu = setup_cpu();
    cpu.set_x(0x01);
    let op = Operand::AbsoluteX(0x0100);
    assert_eq!(0x0101, op.ea(&cpu, &mut tick_fn));
}

#[test]
fn address_absolutex_wrapping() {
    let mut tick_fn = TickCounter::new();
    let mut cpu = setup_cpu();
    cpu.set_x(0x03);
    let op = Operand::AbsoluteX(0xffff);
    assert_eq!(0x0002, op.ea(&cpu, &mut tick_fn));
}

#[test]
fn address_absolutey() {
    let mut tick_fn = TickCounter::new();
    let mut cpu = setup_cpu();
    cpu.set_y(0x01);
    let op = Operand::AbsoluteY(0x0100);
    assert_eq!(0x0101, op.ea(&cpu, &mut tick_fn));
}

#[test]
fn address_absolutey_wrapping() {
    let mut tick_fn = TickCounter::new();
    let mut cpu = setup_cpu();
    cpu.set_y(0x03);
    let op = Operand::AbsoluteY(0xffff);
    assert_eq!(0x0002, op.ea(&cpu, &mut tick_fn));
}

#[test]
fn address_indirectx() {
    let mut tick_fn = TickCounter::new();
    let mut cpu = setup_cpu();
    cpu.write(0x0006, 0x00);
    cpu.write(0x0007, 0x16);
    cpu.set_x(0x05);
    let op = Operand::IndirectX(0x01);
    assert_eq!(0x1600, op.ea(&cpu, &mut tick_fn));
}

#[test]
fn address_indirectx_wrapping() {
    let mut tick_fn = TickCounter::new();
    let mut cpu = setup_cpu();
    cpu.write(0x0006, 0x00);
    cpu.write(0x0007, 0x16);
    cpu.set_x(0x07);
    let op = Operand::IndirectX(0xff);
    assert_eq!(0x1600, op.ea(&cpu, &mut tick_fn));
}

#[test]
fn address_indirecty() {
    let mut tick_fn = TickCounter::new();
    let mut cpu = setup_cpu();
    cpu.write(0x0006, 0x00);
    cpu.write(0x0007, 0x16);
    cpu.set_y(0x05);
    let op = Operand::IndirectY(0x06);
    assert_eq!(0x1605, op.ea(&cpu, &mut tick_fn));
}

#[test]
fn address_indirecty_wrapping() {
    let mut tick_fn = TickCounter::new();
    let mut cpu = setup_cpu();
    cpu.write(0x0006, 0xff);
    cpu.write(0x0007, 0xff);
    cpu.set_y(0x06);
    let op = Operand::IndirectY(0x06);
    assert_eq!(0x0005, op.ea(&cpu, &mut tick_fn));
}

#[test]
fn address_relative_pos() {
    let mut tick_fn = TickCounter::new();
    let mut cpu = setup_cpu();
    cpu.set_pc(0x0100);
    let op = Operand::Relative(0x01);
    assert_eq!(0x0101, op.ea(&cpu, &mut tick_fn));
}

#[test]
fn address_relative_neg() {
    let mut tick_fn = TickCounter::new();
    let mut cpu = setup_cpu();
    cpu.set_pc(0x0100);
    let op = Operand::Relative(-0x01);
    assert_eq!(0x00ff, op.ea(&cpu, &mut tick_fn));
}

#[test]
fn address_relative_neg_max() {
    let mut tick_fn = TickCounter::new();
    let mut cpu = setup_cpu();
    cpu.set_pc(0x0505);
    let op = Operand::Relative(-128);
    assert_eq!(0x0485, op.ea(&cpu, &mut tick_fn));
}

#[test]
fn get_accumulator() {
    let mut tick_fn = TickCounter::new();
    let mut cpu = setup_cpu();
    cpu.set_a(0xab);
    let op = Operand::Accumulator;
    assert_eq!(0xab, op.get(&cpu, &mut tick_fn));
}

#[test]
fn get_immediate() {
    let mut tick_fn = TickCounter::new();
    let cpu = setup_cpu();
    let op = Operand::Immediate(0xab);
    assert_eq!(0xab, op.get(&cpu, &mut tick_fn));
}

#[test]
fn get_zeropage() {
    let mut tick_fn = TickCounter::new();
    let mut cpu = setup_cpu();
    cpu.write(0x0010, 0xab);
    let op = Operand::ZeroPage(0x10);
    assert_eq!(0xab, op.get(&cpu, &mut tick_fn));
}

#[test]
fn get_absolute() {
    let mut tick_fn = TickCounter::new();
    let mut cpu = setup_cpu();
    cpu.write(0x0100, 0xab);
    let op = Operand::Absolute(0x0100);
    assert_eq!(0xab, op.get(&cpu, &mut tick_fn));
}

#[test]
fn set_zeropage() {
    let mut tick_fn = TickCounter::new();
    let mut cpu = setup_cpu();
    let op = Operand::ZeroPage(0x10);
    op.set(&mut cpu, 0xab, &mut tick_fn);
    assert_eq!(0xab, cpu.read(0x0010));
}

#[test]
fn set_absolute() {
    let mut tick_fn = TickCounter::new();
    let mut cpu = setup_cpu();
    let op = Operand::Absolute(0x0100);
    op.set(&mut cpu, 0xab, &mut tick_fn);
    assert_eq!(0xab, cpu.read(0x0100));
}

#[test]
fn adc_decimal_mode_carries_into_next_digit() {
    let mut tick_fn = TickCounter::new();
    let mut cpu = setup_cpu();
    cpu.set_flag(Flag::Decimal, true);
    cpu.set_a(0x19);
    cpu.execute(&Instruction::ADC(Operand::Immediate(0x28)), &mut tick_fn);
    assert_eq!(0x47, cpu.get_a());
    assert_eq!(false, cpu.test_flag(Flag::Carry));
    cpu.set_a(0x99);
    cpu.execute(&Instruction::ADC(Operand::Immediate(0x01)), &mut tick_fn);
    assert_eq!(0x00, cpu.get_a());
    assert_eq!(true, cpu.test_flag(Flag::Carry));
}

#[test]
fn adc_signed_overflow_sets_v() {
    let mut tick_fn = TickCounter::new();
    let mut cpu = setup_cpu();
    cpu.set_a(0x50);
    cpu.execute(&Instruction::ADC(Operand::Immediate(0x50)), &mut tick_fn);
    assert_eq!(0xa0, cpu.get_a());
    assert_eq!(true, cpu.test_flag(Flag::Overflow));
    assert_eq!(true, cpu.test_flag(Flag::Negative));
    assert_eq!(false, cpu.test_flag(Flag::Carry));
}

#[test]
fn sbc_with_borrow_and_decimal() {
    let mut tick_fn = TickCounter::new();
    let mut cpu = setup_cpu();
    cpu.set_flag(Flag::Carry, true);
    cpu.set_a(0x50);
    cpu.execute(&Instruction::SBC(Operand::Immediate(0x20)), &mut tick_fn);
    assert_eq!(0x30, cpu.get_a());
    assert_eq!(true, cpu.test_flag(Flag::Carry));
    cpu.set_flag(Flag::Carry, true);
    cpu.execute(&Instruction::SBC(Operand::Immediate(0x40)), &mut tick_fn);
    assert_eq!(0xf0, cpu.get_a());
    assert_eq!(false, cpu.test_flag(Flag::Carry));
    cpu.set_flag(Flag::Decimal, true);
    cpu.set_flag(Flag::Carry, true);
    cpu.set_a(0x42);
    cpu.execute(&Instruction::SBC(Operand::Immediate(0x13)), &mut tick_fn);
    assert_eq!(0x29, cpu.get_a());
    assert_eq!(true, cpu.test_flag(Flag::Carry));
}

#[test]
fn compare_sets_carry_and_zero() {
    let mut tick_fn = TickCounter::new();
    let mut cpu = setup_cpu();
    cpu.set_a(0x40);
    cpu.execute(&Instruction::CMP(Operand::Immediate(0x40)), &mut tick_fn);
    assert_eq!(true, cpu.test_flag(Flag::Zero));
    assert_eq!(true, cpu.test_flag(Flag::Carry));
    cpu.execute(&Instruction::CMP(Operand::Immediate(0x41)), &mut tick_fn);
    assert_eq!(false, cpu.test_flag(Flag::Zero));
    assert_eq!(false, cpu.test_flag(Flag::Carry));
    assert_eq!(true, cpu.test_flag(Flag::Negative));
}

#[test]
fn jsr_then_rts_returns_after_call() {
    let mut tick_fn = TickCounter::new();
    let mut cpu = setup_cpu();
    cpu.set_sp(0xff);
    cpu.set_pc(0x1003);
    cpu.execute(&Instruction::JSR(Operand::Absolute(0x2000)), &mut tick_fn);
    assert_eq!(0x2000, cpu.get_pc());
    assert_eq!(0xfd, cpu.get_sp());
    assert_eq!(0x10, cpu.read(0x01ff));
    assert_eq!(0x02, cpu.read(0x01fe));
    cpu.execute(&Instruction::RTS, &mut tick_fn);
    assert_eq!(0x1003, cpu.get_pc());
    assert_eq!(0xff, cpu.get_sp());
}

#[test]
fn push_then_pull_restores_accumulator() {
    let mut tick_fn = TickCounter::new();
    let mut cpu = setup_cpu();
    cpu.set_sp(0xff);
    cpu.set_a(0x80);
    cpu.execute(&Instruction::PHA, &mut tick_fn);
    cpu.set_a(0x00);
    cpu.execute(&Instruction::PLA, &mut tick_fn);
    assert_eq!(0x80, cpu.get_a());
    assert_eq!(0xff, cpu.get_sp());
    assert_eq!(true, cpu.test_flag(Flag::Negative));
}

#[test]
fn brk_then_rti_restores_state() {
    let mut tick_fn = TickCounter::new();
    let mut cpu = setup_cpu();
    cpu.write(0xfffe, 0x00);
    cpu.write(0xffff, 0x30);
    cpu.set_sp(0xff);
    cpu.set_pc(0x1001);
    cpu.set_p(0x01);
    cpu.execute(&Instruction::BRK, &mut tick_fn);
    assert_eq!(0x3000, cpu.get_pc());
    assert_eq!(true, cpu.test_flag(Flag::IntDisable));
    assert_eq!(0x31, cpu.read(0x01fd));
    cpu.execute(&Instruction::RTI, &mut tick_fn);
    assert_eq!(0x1002, cpu.get_pc());
    assert_eq!(0x31, cpu.get_p());
    assert_eq!(0xff, cpu.get_sp());
}

#[test]
fn branch_taken_and_not_taken() {
    let mut tick_fn = TickCounter::new();
    let mut cpu = setup_cpu();
    cpu.set_pc(0x0200);
    cpu.execute(&Instruction::BNE(Operand::Relative(-2)), &mut tick_fn);
    assert_eq!(0x01fe, cpu.get_pc());
    cpu.set_flag(Flag::Zero, true);
    cpu.execute(&Instruction::BNE(Operand::Relative(-2)), &mut tick_fn);
    assert_eq!(0x01fe, cpu.get_pc());
}

#[test]
fn rotate_through_carry() {
    let mut tick_fn = TickCounter::new();
    let mut cpu = setup_cpu();
    cpu.set_a(0x81);
    cpu.execute(&Instruction::ROL(Operand::Accumulator), &mut tick_fn);
    assert_eq!(0x02, cpu.get_a());
    assert_eq!(true, cpu.test_flag(Flag::Carry));
    cpu.execute(&Instruction::ROR(Operand::Accumulator), &mut tick_fn);
    assert_eq!(0x81, cpu.get_a());
    assert_eq!(false, cpu.test_flag(Flag::Carry));
}

#[test]
fn port_registers_at_zero_and_one() {
    let mut cpu = setup_cpu();
    cpu.write(0x0000, 0x2f);
    cpu.write(0x0001, 0x07);
    assert_eq!(0x2f, cpu.read(0x0000));
    assert_eq!((0x07 & 0x2f) | (0xff & !0x2f), cpu.read(0x0001));
}

#[test]
fn reset_jumps_through_reset_vector() {
    let mut cpu = setup_cpu();
    cpu.write(0xfffc, 0xe2);
    cpu.write(0xfffd, 0xfc);
    cpu.set_a(0x12);
    cpu.reset();
    assert_eq!(0xfce2, cpu.get_pc());
    assert_eq!(0, cpu.get_a());
    assert_eq!(0x2f, cpu.read(0x0000));
}

#[test]
fn step_executes_program_and_takes_irq() {
    let mut tick_fn = TickCounter::new();
    let mut cpu = setup_cpu();
    // LDA #$05; INX at $1000, IRQ handler NOP at $2000
    cpu.write(0x1000, 0xa9);
    cpu.write(0x1001, 0x05);
    cpu.write(0x1002, 0xe8);
    cpu.write(0x2000, 0xea);
    cpu.write(0xfffe, 0x00);
    cpu.write(0xffff, 0x20);
    cpu.set_sp(0xff);
    cpu.set_pc(0x1000);
    cpu.step(&mut tick_fn);
    assert_eq!(0x05, cpu.get_a());
    assert_eq!(0x1002, cpu.get_pc());
    cpu.irq_line.set_low(0, true);
    cpu.step(&mut tick_fn);
    assert_eq!(0x2001, cpu.get_pc());
    assert_eq!(true, cpu.test_flag(Flag::IntDisable));
    assert_eq!(0x10, cpu.read(0x01ff));
    assert_eq!(0x02, cpu.read(0x01fe));
}

#[test]
fn step_waits_while_ba_is_low() {
    let mut tick_fn = TickCounter::new();
    let mut cpu = setup_cpu();
    cpu.write(0x1000, 0xe8);
    cpu.set_pc(0x1000);
    cpu.ba_line.set_active(false);
    cpu.step(&mut tick_fn);
    assert_eq!(0x1000, cpu.get_pc());
    assert_eq!(0, cpu.get_x());
    cpu.ba_line.set_active(true);
    cpu.step(&mut tick_fn);
    assert_eq!(1, cpu.get_x());
}

#[test]
fn interrupt_vectors() {
    assert_eq!(0xfffe, Interrupt::Break.vector());
    assert_eq!(0xfffe, Interrupt::Irq.vector());
    assert_eq!(0xfffa, Interrupt::Nmi.vector());
    assert_eq!(0xfffc, Interrupt::Reset.vector());
}

#[test]
fn disassemble_matches_decode() {
    let mut cpu = setup_cpu();
    cpu.write(0x1000, 0xad);
    cpu.write(0x1001, 0x00);
    cpu.write(0x1002, 0x10);
    cpu.write(0x1003, 0xd0);
    cpu.write(0x1004, 0xfe);
    {
        let disassembler = zinc64::app::disassembler::Disassembler::new(&cpu);
        match disassembler.disassemble(0x1000) {
            (Instruction::LDA(Operand::Absolute(address)), 3) => assert_eq!(0x1000, address),
            _ => panic!("expected lda absolute"),
        }
        match disassembler.disassemble(0x1003) {
            (Instruction::BNE(Operand::Relative(offset)), 2) => assert_eq!(-2, offset),
            _ => panic!("expected bne"),
        }
    }
    cpu.set_pc(0x1000);
    let mut tick_fn = TickCounter::new();
    let opcode = cpu.fetch_byte(&mut tick_fn);
    match Instruction::decode(&mut cpu, opcode, &mut tick_fn) {
        Instruction::LDA(Operand::Absolute(address)) => assert_eq!(0x1000, address),
        _ => panic!("expected lda absolute"),
    }
    assert_eq!(0x1003, cpu.get_pc());
}

#[test]
fn cpu_register_summary() {
    let mut cpu = setup_cpu();
    cpu.set_a(0x12);
    cpu.set_x(0x34);
    cpu.set_y(0x56);
    cpu.set_sp(0xfd);
    cpu.set_p(0x83);
    assert_eq!("12 34 56 fd NvbdiZC", cpu.to_string());
}

#[test]
fn written_byte_reads_back() {
    let mut cpu = setup_cpu();
    cpu.write(0xc000, 0x5a);
    cpu.write(0xc001, 0xa5);
    assert_eq!(0x5a, cpu.read(0xc000));
    assert_eq!(0xa5, cpu.read(0xc001));
    assert_eq!(0x00, cpu.read(0xbfff));
}

#[test]
fn nop_and_immediate_load_take_two_cycles() {
    let mut cpu = setup_cpu();
    cpu.write(0x1000, 0xea);
    cpu.write(0x1001, 0xa9);
    cpu.write(0x1002, 0x42);
    cpu.set_pc(0x1000);
    let a = cpu.get_a();
    let mut ticks = TickCounter::new();
    cpu.step(&mut ticks);
    assert_eq!(2, ticks.get());
    assert_eq!(0x1001, cpu.get_pc());
    assert_eq!(a, cpu.get_a());
    cpu.step(&mut ticks);
    assert_eq!(4, ticks.get());
    assert_eq!(0x1002 + 1, cpu.get_pc());
    assert_eq!(0x42, cpu.get_a());
    assert!(!cpu.test_flag(Flag::Zero));
    assert!(!cpu.test_flag(Flag::Negative));
}

#[test]
fn instruction_cycles() {
    let mut cpu = setup_cpu();
    let mut ticks = TickCounter::new();
    cpu.execute(&Instruction::PHA, &mut ticks);
    assert_eq!(2, ticks.get());
    cpu.execute(&Instruction::PLA, &mut ticks);
    assert_eq!(5, ticks.get());
    cpu.execute(&Instruction::INC(Operand::Absolute(0x2000)), &mut ticks);
    assert_eq!(8, ticks.get());
    cpu.execute(&Instruction::LDA(Operand::IndirectY(0x10)), &mut ticks);
    assert_eq!(11, ticks.get());
    cpu.execute(&Instruction::JSR(Operand::Absolute(0x3000)), &mut ticks);
    assert_eq!(14, ticks.get());
    cpu.execute(&Instruction::RTS, &mut ticks);
    assert_eq!(19, ticks.get());
    cpu.interrupt(Interrupt::Irq, &mut ticks);
    assert_eq!(25, ticks.get());
}

#[test]
fn instruction_text_in_assembler_notation() {
    assert_eq!("lda #$42", Instruction::LDA(Operand::Immediate(0x42)).text());
    assert_eq!("brk", Instruction::BRK.text());
    assert_eq!("sta ($10),y", Instruction::STA(Operand::IndirectY(0x10)).text());
    assert_eq!("lda ($20,x)", Instruction::LDA(Operand::IndirectX(0x20)).text());
    assert_eq!("jmp ($fffc)", Instruction::JMP(Operand::Indirect(0xfffc)).text());
    assert_eq!("stx $0400,y", Instruction::STX(Operand::AbsoluteY(0x0400)).text());
    assert_eq!("bne $fe", Instruction::BNE(Operand::Relative(-2)).text());
    assert_eq!("asl a", Instruction::ASL(Operand::Accumulator).text());
}

#[test]
fn break_and_decimal_letters_follow_their_own_flags() {
    let mut cpu = setup_cpu();
    cpu.set_p(0x10);
    assert_eq!("00 00 00 00 nvBdizc", cpu.to_string());
    cpu.set_p(0x08);
    assert_eq!("00 00 00 00 nvbDizc", cpu.to_string());
}

#[test]
fn debugger_register_reads_and_writes() {
    use_reg_ops();
}

fn use_reg_ops() {
    let mut cpu = setup_cpu();
    zinc64::app::command::reg_write(
        &mut cpu,
        &vec![
            zinc64::app::command::RegOp::SetA(0x11),
            zinc64::app::command::RegOp::SetPC(0xc000),
            zinc64::app::command::RegOp::SetA(0x22),
            zinc64::app::command::RegOp::SetSP(0xf0),
        ],
    );
    let regs = zinc64::app::command::reg_read(&cpu);
    assert_eq!(0x22, regs.a);
    assert_eq!(0xc000, regs.pc);
    assert_eq!(0xf0, regs.sp);
    assert_eq!(0x00, regs.x);
    assert_eq!(cpu.read(0x00), regs.port_00);
    assert_eq!(cpu.read(0x01), regs.port_01);
}

#[test]
fn system_models() {
    let pal = zinc64::common::SystemModel::from("pal");
    assert_eq!(985_248, pal.cpu_freq);
    assert_eq!(19656, pal.cycles_per_frame);
    assert_eq!((403, 284), pal.frame_buffer_size);
    assert_eq!(50125, pal.refresh_rate_millihertz);
    let ntsc = zinc64::common::SystemModel::from("c64-ntsc");
    assert_eq!(1_022_727, ntsc.cpu_freq);
    assert_eq!(17095, ntsc.cycles_per_frame);
    assert_eq!(59826, ntsc.refresh_rate_millihertz);
}
