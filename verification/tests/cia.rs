use zinc64::common::io_port::IoPort;
use zinc64::common::irqline::IrqLine;
use zinc64::common::pin::Pin;
use zinc64::io::cia::{from_bcd, to_bcd, Cia, Mode, Reg};

fn setup_cia() -> Cia {
    let mut cia = Cia::new(
        Mode::Cia1,
        Pin::new_low(),
        IoPort::new(0x00, 0xff),
        IoPort::new(0x00, 0xff),
        IrqLine::new("irq"),
        None,
        None,
        [0xff; 8],
    );
    cia.reset();
    cia
}

#[test]
fn read_regs() {
    let mut cia = setup_cia();
    assert_eq!(0xff, cia.read(Reg::PRA.addr()));
    assert_eq!(0xff, cia.read(Reg::PRB.addr()));
    assert_eq!(0x00, cia.read(Reg::DDRA.addr()));
    assert_eq!(0x00, cia.read(Reg::DDRB.addr()));
    assert_eq!(0x00, cia.read(Reg::TALO.addr()));
    assert_eq!(0x00, cia.read(Reg::TAHI.addr()));
    assert_eq!(0x00, cia.read(Reg::TBLO.addr()));
    assert_eq!(0x00, cia.read(Reg::TBHI.addr()));
    assert_eq!(0x00, cia.read(Reg::TODTS.addr()));
    assert_eq!(0x00, cia.read(Reg::TODSEC.addr()));
    assert_eq!(0x00, cia.read(Reg::TODMIN.addr()));
    assert_eq!(0x00, cia.read(Reg::TODHR.addr()));
    assert_eq!(0x00, cia.read(Reg::SDR.addr()));
    assert_eq!(0x00, cia.read(Reg::ICR.addr()));
    assert_eq!(0x08, cia.read(Reg::CRA.addr()));
    assert_eq!(0x08, cia.read(Reg::CRB.addr()));
}

#[test]
fn timer_a_interrupt() {
    let mut cia = setup_cia();
    cia.write(Reg::TALO.addr(), 0x01);
    cia.write(Reg::TAHI.addr(), 0x00);
    cia.clock(); // LOAD0
    cia.clock(); // LOAD1
    cia.write(Reg::ICR.addr(), 0x81); // enable irq for timer a
    cia.write(Reg::CRA.addr(), 0b_0000_1001_u8);
    cia.clock(); // COUNT0|COUNT1
    assert_eq!(false, cia.irq_line.is_low());
    cia.clock(); // COUNT2
    assert_eq!(false, cia.irq_line.is_low());
    cia.clock(); // COUNT3|INT0
    assert_eq!(false, cia.irq_line.is_low());
    cia.clock(); // INT1
    assert_eq!(1, cia.timer_a.get_counter());
    assert_eq!(true, cia.irq_line.is_low());
}

#[test]
fn timer_b_interrupt() {
    let mut cia = setup_cia();
    cia.write(Reg::TBLO.addr(), 0x01);
    cia.write(Reg::TBHI.addr(), 0x00);
    cia.clock(); // LOAD0
    assert_eq!(0, cia.timer_b.get_counter());
    cia.clock(); // LOAD1
    assert_eq!(1, cia.timer_b.get_counter());
    cia.write(Reg::ICR.addr(), 0x82); // enable irq for timer b
    cia.write(Reg::CRB.addr(), 0b_0000_1001_u8);
    cia.clock(); // COUNT0|COUNT1
    assert_eq!(false, cia.irq_line.is_low());
    cia.clock(); // COUNT2
    assert_eq!(false, cia.irq_line.is_low());
    cia.clock(); // COUNT3|INT0
    assert_eq!(false, cia.irq_line.is_low());
    cia.clock(); // INT1
    assert_eq!(1, cia.timer_b.get_counter());
    assert_eq!(true, cia.irq_line.is_low());
}

#[test]
fn write_reg_0x00() {
    let mut cia = setup_cia();
    cia.write(Reg::PRA.addr(), 0xff);
    assert_eq!(0xff, cia.port_a.get_value());
}

#[test]
fn write_reg_0x01() {
    let mut cia = setup_cia();
    cia.write(Reg::PRB.addr(), 0xff);
    assert_eq!(0xff, cia.port_b.get_value());
}

#[test]
fn write_reg_0x02() {
    let mut cia = setup_cia();
    cia.write(Reg::DDRA.addr(), 0xff);
    assert_eq!(0xff, cia.port_a.get_direction());
}

#[test]
fn write_reg_0x03() {
    let mut cia = setup_cia();
    cia.write(Reg::DDRB.addr(), 0xff);
    assert_eq!(0xff, cia.port_b.get_direction());
}

#[test]
fn write_reg_0x04() {
    let mut cia = setup_cia();
    cia.write(Reg::TALO.addr(), 0xab);
    assert_eq!(0xab, cia.timer_a.get_latch() & 0x00ff);
}

#[test]
fn write_reg_0x05() {
    let mut cia = setup_cia();
    cia.write(Reg::TAHI.addr(), 0xcd);
    assert_eq!(0xcd, (cia.timer_a.get_latch() & 0xff00) >> 8);
}

#[test]
fn write_reg_0x06() {
    let mut cia = setup_cia();
    cia.write(Reg::TBLO.addr(), 0xab);
    assert_eq!(0xab, cia.timer_b.get_latch() & 0x00ff);
}

#[test]
fn write_reg_0x07() {
    let mut cia = setup_cia();
    cia.write(Reg::TBHI.addr(), 0xcd);
    assert_eq!(0xcd, (cia.timer_b.get_latch() & 0xff00) >> 8);
}

#[test]
fn write_reg_0x0d() {
    let mut cia = setup_cia();
    cia.write(Reg::ICR.addr(), 0b10000011u8);
    assert_eq!(0b00000011u8, cia.int_control.get_mask());
    cia.write(Reg::ICR.addr(), 0b00000010u8);
    assert_eq!(0b00000001u8, cia.int_control.get_mask());
}

#[test]
fn write_timer_a_value() {
    let mut cia = setup_cia();
    cia.write(Reg::TALO.addr(), 0xab);
    assert_eq!(0x0000, cia.timer_a.get_counter());
    cia.write(Reg::TAHI.addr(), 0xcd);
    assert_eq!(0x0000, cia.timer_a.get_counter());
    cia.clock();
    cia.clock();
    assert_eq!(0xcdab, cia.timer_a.get_counter());
}

#[test]
fn write_timer_b_value() {
    let mut cia = setup_cia();
    cia.write(Reg::TBLO.addr(), 0xab);
    assert_eq!(0x00, cia.timer_b.get_counter());
    cia.write(Reg::TBHI.addr(), 0xcd);
    cia.clock();
    cia.clock();
    assert_eq!(0xcdab, cia.timer_b.get_counter());
}

/*
Program CIA1TAB - TA, TB, PB67 and ICR in cascaded mode

Both latches are set to 2. TA counts system clocks, TB counts TA underflows (cascaded).
PB6 is high for one cycle when TA underflows, PB7 is toggled when TB underflows. IMR is $02.
*/
#[test]
fn program_cia1tab() {
    let mut cia = setup_cia();
    cia.write(Reg::DDRB.addr(), 0x7f);
    cia.write(Reg::ICR.addr(), 0x82);
    cia.write(Reg::CRA.addr(), 0x00);
    cia.write(Reg::CRB.addr(), 0x00);
    cia.write(Reg::TALO.addr(), 0x02);
    cia.write(Reg::TAHI.addr(), 0x00);
    cia.write(Reg::TBLO.addr(), 0x02);
    cia.write(Reg::TBHI.addr(), 0x00);
    cia.clock();
    cia.clock();
    cia.write(Reg::CRB.addr(), 0x47);
    cia.write(Reg::CRA.addr(), 0x03);
    cia.clock(); // Count0|Count1
    cia.clock(); // Count2
    cia.clock(); // Count3
    assert_eq!(cia.timer_a.get_counter(), 0x01);
    assert_eq!(cia.timer_b.get_counter(), 0x02);
    assert_eq!(cia.read(Reg::PRB.addr()), 0x80);
    assert_eq!(cia.int_control.data, 0x00);
    cia.clock(); // Count3|Underflow|Load1
    assert_eq!(cia.timer_a.get_counter(), 0x02);
    assert_eq!(cia.timer_b.get_counter(), 0x02);
    assert_eq!(cia.read(Reg::PRB.addr()), 0xc0);
    assert_eq!(cia.int_control.data, 0x01);
    cia.clock(); // Count2
    assert_eq!(cia.timer_a.get_counter(), 0x02);
    assert_eq!(cia.timer_b.get_counter(), 0x02);
    assert_eq!(cia.read(Reg::PRB.addr()), 0x80);
    assert_eq!(cia.int_control.data, 0x01);
    cia.clock(); // Count3
    assert_eq!(cia.timer_a.get_counter(), 0x01);
    assert_eq!(cia.timer_b.get_counter(), 0x01);
    assert_eq!(cia.read(Reg::PRB.addr()), 0x80);
    assert_eq!(cia.int_control.data, 0x01);
    cia.clock(); // Count3|Underflow|Load1
    assert_eq!(cia.timer_a.get_counter(), 0x02);
    assert_eq!(cia.timer_b.get_counter(), 0x01);
    assert_eq!(cia.read(Reg::PRB.addr()), 0xc0);
    assert_eq!(cia.int_control.data, 0x01);
    cia.clock(); // Count2
    assert_eq!(cia.timer_a.get_counter(), 0x02);
    assert_eq!(cia.timer_b.get_counter(), 0x01);
    assert_eq!(cia.read(Reg::PRB.addr()), 0x80);
    assert_eq!(cia.int_control.data, 0x01);
    cia.clock(); // Count3
    assert_eq!(cia.timer_a.get_counter(), 0x01);
    assert_eq!(cia.timer_b.get_counter(), 0x00);
    assert_eq!(cia.read(Reg::PRB.addr()), 0x80);
    assert_eq!(cia.int_control.data, 0x01);
    cia.clock(); // Count3|Underflow|Load1
    assert_eq!(cia.timer_a.get_counter(), 0x02);
    assert_eq!(cia.timer_b.get_counter(), 0x00);
    assert_eq!(cia.read(Reg::PRB.addr()), 0xc0);
    assert_eq!(cia.int_control.data, 0x01);
    cia.clock(); // Count2
    assert_eq!(cia.timer_a.get_counter(), 0x02);
    assert_eq!(cia.timer_b.get_counter(), 0x02);
    assert_eq!(cia.read(Reg::PRB.addr()), 0x00);
    assert_eq!(cia.int_control.data, 0x03);
    cia.clock(); // Count3
    assert_eq!(cia.timer_a.get_counter(), 0x01);
    assert_eq!(cia.timer_b.get_counter(), 0x02);
    assert_eq!(cia.read(Reg::PRB.addr()), 0x00);
    assert_eq!(cia.int_control.data, 0x03);
    cia.clock(); // Count3|Underflow|Load1
    assert_eq!(cia.timer_a.get_counter(), 0x02);
    assert_eq!(cia.timer_b.get_counter(), 0x02);
    assert_eq!(cia.read(Reg::PRB.addr()), 0x40);
    assert_eq!(cia.int_control.data, 0x03);
    cia.clock(); // Count2
    assert_eq!(cia.timer_a.get_counter(), 0x02);
    assert_eq!(cia.timer_b.get_counter(), 0x02);
    assert_eq!(cia.read(Reg::PRB.addr()), 0x00);
    assert_eq!(cia.int_control.data, 0x03);
}

#[test]
fn bcd_conversions() {
    assert_eq!(to_bcd(59), 0x59);
    assert_eq!(to_bcd(0), 0x00);
    assert_eq!(from_bcd(0x59), 59);
    assert_eq!(from_bcd(0x12), 12);
    assert_eq!(from_bcd(to_bcd(37)), 37);
}

#[test]
fn tod_registers_read_back_written_time() {
    let mut cia = setup_cia();
    cia.write(Reg::TODHR.addr(), 0x91); // 11 PM, stops the clock
    cia.write(Reg::TODMIN.addr(), 0x59);
    cia.write(Reg::TODSEC.addr(), 0x58);
    cia.write(Reg::TODTS.addr(), 0x07);
    assert_eq!(cia.read(Reg::TODHR.addr()), 0x91);
    assert_eq!(cia.read(Reg::TODMIN.addr()), 0x59);
    assert_eq!(cia.read(Reg::TODSEC.addr()), 0x58);
    assert_eq!(cia.tod_clock.enabled, false);
    assert_eq!(cia.read(Reg::TODTS.addr()), 0x07);
    assert_eq!(cia.tod_clock.enabled, true);
}

#[test]
fn keyboard_scan_selects_rows() {
    let mut matrix = [0xff; 8];
    matrix[1] = !(1 << 5);
    let mut cia = Cia::new(
        Mode::Cia1,
        Pin::new_low(),
        IoPort::new(0x00, 0xff),
        IoPort::new(0x00, 0xff),
        IrqLine::new("irq"),
        None,
        None,
        matrix,
    );
    cia.reset();
    cia.write(Reg::DDRA.addr(), 0xff);
    cia.write(Reg::PRA.addr(), 0xfd); // select row 1
    assert_eq!(cia.read(Reg::PRB.addr()), 0xdf);
    cia.write(Reg::PRA.addr(), 0xfe); // select row 0
    assert_eq!(cia.read(Reg::PRB.addr()), 0xff);
}

#[test]
fn icr_read_clears_interrupt() {
    let mut cia = setup_cia();
    cia.write(Reg::TALO.addr(), 0x01);
    cia.write(Reg::TAHI.addr(), 0x00);
    cia.clock();
    cia.clock();
    cia.write(Reg::ICR.addr(), 0x81);
    cia.write(Reg::CRA.addr(), 0x09);
    cia.clock_delta(4);
    assert!(cia.irq_line.is_low());
    assert_eq!(cia.read(Reg::ICR.addr()), 0x81);
    assert!(!cia.irq_line.is_low());
    assert_eq!(cia.read(Reg::ICR.addr()), 0x00);
}

#[test]
fn reset_zeroes_time_of_day() {
    let mut cia = setup_cia();
    cia.write(Reg::TODSEC.addr(), 0x05);
    cia.write(Reg::TODMIN.addr(), 0x12);
    assert_eq!(0x05, cia.read(Reg::TODSEC.addr()));
    cia.reset();
    assert_eq!(0x00, cia.read(Reg::TODTS.addr()));
    assert_eq!(0x00, cia.read(Reg::TODSEC.addr()));
    assert_eq!(0x00, cia.read(Reg::TODMIN.addr()));
    assert_eq!(0x00, cia.read(Reg::TODHR.addr()));
}

struct Recorder(std::rc::Rc<std::cell::RefCell<Vec<u8>>>);

impl zinc64::common::io_port::PortObserver for Recorder {
    fn notify(&self, value: u8) {
        self.0.borrow_mut().push(value);
    }
}

#[test]
fn port_observer_told_each_new_value_once() {
    let seen = std::rc::Rc::new(std::cell::RefCell::new(Vec::new()));
    let mut port = IoPort::new(0x0f, 0xff);
    port.set_observer(Box::new(Recorder(seen.clone())));
    port.set_value(0x05);
    assert_eq!(vec![0xf5], *seen.borrow());
    port.set_direction(0xff);
    assert_eq!(vec![0xf5, 0x05], *seen.borrow());
}
