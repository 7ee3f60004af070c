//! The MOS 6526 complex interface adapter: two I/O ports, two interval
//! timers, a time-of-day clock and interrupt control.

use vstd::prelude::*;
use crate::bits::{bit_of_u8, get_bit_u8, set_bit_u8, with_bit_u8};
use crate::common::io_port::{noticed, port_value, IoPort};
use crate::common::irq_control::updated_mask;
use crate::common::irqline::IrqLine;
use crate::common::pin::{Pin, State};
use crate::common::traits::Chip;
use super::cycle_counter::CycleCounter;
use super::icr::Icr;
use super::rtc::{rtc_zero, ticked, Rtc};
use super::timer::{clocked, config_of, configured, fed, new_timer, Mode as TimerMode, Timer, LOAD0};

verus! {

/// Interrupt delay stage: an interrupt was raised this cycle.
pub const INTERRUPT0: u16 = 1;
/// Interrupt delay stage: the IRQ line goes low.
pub const INTERRUPT1: u16 = 2;

/// Which of the two CIAs this is; it decides port wiring and the interrupt source bit.
#[derive(Clone, Copy, PartialEq, Eq, Structural)]
pub enum Mode {
    Cia1,
    Cia2,
}

impl Mode {
    /// The interrupt line source bit of this CIA: 0 for CIA 1, 1 for CIA 2.
    pub open spec fn source(self) -> usize {
        match self {
            Mode::Cia1 => 0,
            Mode::Cia2 => 1,
        }
    }

    /// The interrupt line source bit of this CIA.
    pub fn irq_source(&self) -> (r: usize)
        ensures
            r == self.source(),
    {
        match self {
            Mode::Cia1 => 0,
            Mode::Cia2 => 1,
        }
    }
}

/// The sixteen CIA registers.
#[derive(Clone, Copy, PartialEq, Eq, Structural)]
pub enum Reg {
    PRA,
    PRB,
    DDRA,
    DDRB,
    TALO,
    TAHI,
    TBLO,
    TBHI,
    TODTS,
    TODSEC,
    TODMIN,
    TODHR,
    SDR,
    ICR,
    CRA,
    CRB,
}

/// The register number of each register.
pub open spec fn reg_number(reg: Reg) -> u8 {
    match reg {
        Reg::PRA => 0x00,
        Reg::PRB => 0x01,
        Reg::DDRA => 0x02,
        Reg::DDRB => 0x03,
        Reg::TALO => 0x04,
        Reg::TAHI => 0x05,
        Reg::TBLO => 0x06,
        Reg::TBHI => 0x07,
        Reg::TODTS => 0x08,
        Reg::TODSEC => 0x09,
        Reg::TODMIN => 0x0a,
        Reg::TODHR => 0x0b,
        Reg::SDR => 0x0c,
        Reg::ICR => 0x0d,
        Reg::CRA => 0x0e,
        Reg::CRB => 0x0f,
    }
}

impl Reg {
    /// The register with number `reg`.
    pub fn from(reg: u8) -> (r: Reg)
        requires
            reg < 16,
        ensures
            reg_number(r) == reg,
    {
        match reg {
            0x00 => Reg::PRA,
            0x01 => Reg::PRB,
            0x02 => Reg::DDRA,
            0x03 => Reg::DDRB,
            0x04 => Reg::TALO,
            0x05 => Reg::TAHI,
            0x06 => Reg::TBLO,
            0x07 => Reg::TBHI,
            0x08 => Reg::TODTS,
            0x09 => Reg::TODSEC,
            0x0a => Reg::TODMIN,
            0x0b => Reg::TODHR,
            0x0c => Reg::SDR,
            0x0d => Reg::ICR,
            0x0e => Reg::CRA,
            _ => Reg::CRB,
        }
    }

    /// The register number.
    pub fn addr(&self) -> (r: u8)
        ensures
            r == reg_number(*self),
    {
        match self {
            Reg::PRA => 0x00,
            Reg::PRB => 0x01,
            Reg::DDRA => 0x02,
            Reg::DDRB => 0x03,
            Reg::TALO => 0x04,
            Reg::TAHI => 0x05,
            Reg::TBLO => 0x06,
            Reg::TBHI => 0x07,
            Reg::TODTS => 0x08,
            Reg::TODSEC => 0x09,
            Reg::TODMIN => 0x0a,
            Reg::TODHR => 0x0b,
            Reg::SDR => 0x0c,
            Reg::ICR => 0x0d,
            Reg::CRA => 0x0e,
            Reg::CRB => 0x0f,
        }
    }
}

/// The binary value of a BCD byte.
pub open spec fn bcd_value(decimal: u8) -> u8 {
    ((decimal >> 4u8) * 10 + (decimal & 0x0f)) as u8
}

/// The BCD byte of a binary value (tens in the high nibble).
pub open spec fn bcd_of(num: u8) -> u8 {
    ((num / 10) << 4u8) | (num % 10)
}

/// A number below 100 converted to BCD and back is the number again, and a
/// valid BCD byte converted to binary and back is the byte again.
pub proof fn law_bcd_round_trip(n: u8, b: u8)
    ensures
        n < 100 ==> bcd_value(bcd_of(n)) == n,
        (b & 0x0f <= 9 && b >> 4u8 <= 9) ==> bcd_of(bcd_value(b)) == b,
{
    assert((n < 100 ==> ((((n / 10) << 4u8) | (n % 10)) >> 4u8) * 10 + ((((n / 10) << 4u8) | (n
        % 10)) & 0x0f) == n) && ((b & 0x0f <= 9 && b >> 4u8 <= 9) ==> (((((b >> 4u8) * 10 + (b
        & 0x0f)) as u8 / 10) << 4u8) | (((b >> 4u8) * 10 + (b & 0x0f)) as u8 % 10)) == b))
        by (bit_vector);
}

/// Converts a BCD byte to binary.
pub fn from_bcd(decimal: u8) -> (r: u8)
    ensures
        r == bcd_value(decimal),
{
    assert(decimal >> 4u8 <= 15 && decimal & 0x0f <= 15) by (bit_vector);
    (decimal >> 4u8) * 10 + (decimal & 0x0f)
}

/// Converts a binary value to BCD.
pub fn to_bcd(num: u8) -> (r: u8)
    ensures
        r == bcd_of(num),
{
    ((num / 10) << 4u8) | (num % 10)
}

/// The OR of the keyboard rows `0..n` whose column-select bit is set.
pub open spec fn scan_rows(matrix: Seq<u8>, columns: u8, n: nat) -> u8
    decreases n,
{
    if n == 0 {
        0
    } else {
        let prev = scan_rows(matrix, columns, (n - 1) as nat);
        if bit_of_u8(columns, (n - 1) as u8) {
            prev | matrix[n - 1]
        } else {
            prev
        }
    }
}

/// A joystick's contribution to a port: its active-high state inverted, or all ones without a joystick.
pub open spec fn joystick_bits(joystick: Option<u8>) -> u8 {
    match joystick {
        Some(state) => !state,
        None => 0xff,
    }
}

/// `value` with bits 6 and 7 replaced by the PB outputs of the timers that drive them.
pub open spec fn with_pb_outputs(value: u8, timer_a: Timer, timer_b: Timer) -> u8 {
    let v1 = if timer_a.pb_on { with_bit_u8(value, 6, timer_a.pb_output) } else { value };
    if timer_b.pb_on { with_bit_u8(v1, 7, timer_b.pb_output) } else { v1 }
}

/// A 6526 CIA with the devices it reads wired in.
pub struct Cia {
    pub mode: Mode,
    pub irq_line: IrqLine,
    pub joystick_1: Option<u8>,
    pub joystick_2: Option<u8>,
    pub keyboard_matrix: [u8; 8],
    pub int_control: Icr,
    pub int_delay: CycleCounter,
    pub timer_a: Timer,
    pub timer_b: Timer,
    pub tod_alarm: Rtc,
    pub tod_clock: Rtc,
    pub tod_set_alarm: bool,
    pub flag_pin: Pin,
    pub port_a: IoPort,
    pub port_b: IoPort,
}

/// What port A reads: on CIA 1 the pins ANDed with joystick 2, on CIA 2 the pins.
pub open spec fn port_a_reading(c: Cia) -> u8 {
    match c.mode {
        Mode::Cia1 => c.port_a.value() & joystick_bits(c.joystick_2),
        Mode::Cia2 => c.port_a.value(),
    }
}

/// What port B reads: on CIA 1 the pins ANDed with the keyboard rows selected by
/// port A (none when port A is all zero... all rows when all ones) and joystick 1;
/// on both, bits 6 and 7 show timer PB outputs where enabled.
pub open spec fn port_b_reading(c: Cia) -> u8 {
    match c.mode {
        Mode::Cia1 => {
            let pa = c.port_a.value();
            let keyboard = if pa == 0 {
                0u8
            } else if pa == 0xff {
                0xffu8
            } else {
                scan_rows(c.keyboard_matrix@, !pa, 8)
            };
            with_pb_outputs(
                c.port_b.value() & keyboard & joystick_bits(c.joystick_1),
                c.timer_a,
                c.timer_b,
            )
        },
        Mode::Cia2 => with_pb_outputs(c.port_b.value(), c.timer_a, c.timer_b),
    }
}

/// The CIA after a read of `reg`, and the value read. Reading the tenths
/// starts the time-of-day clock; reading ICR clears the events, the
/// interrupt pipeline and this CIA's interrupt request.
pub open spec fn cia_read(c: Cia, reg: u8) -> (Cia, u8) {
    if reg == 0x00 {
        (c, port_a_reading(c))
    } else if reg == 0x01 {
        (c, port_b_reading(c))
    } else if reg == 0x02 {
        (c, c.port_a.direction)
    } else if reg == 0x03 {
        (c, c.port_b.direction)
    } else if reg == 0x04 {
        (c, (c.timer_a.counter & 0xff) as u8)
    } else if reg == 0x05 {
        (c, (c.timer_a.counter >> 8u16) as u8)
    } else if reg == 0x06 {
        (c, (c.timer_b.counter & 0xff) as u8)
    } else if reg == 0x07 {
        (c, (c.timer_b.counter >> 8u16) as u8)
    } else if reg == 0x08 {
        (Cia { tod_clock: Rtc { enabled: true, ..c.tod_clock }, ..c }, bcd_of(c.tod_clock.tenth))
    } else if reg == 0x09 {
        (c, bcd_of(c.tod_clock.seconds))
    } else if reg == 0x0a {
        (c, bcd_of(c.tod_clock.minutes))
    } else if reg == 0x0b {
        (c, with_bit_u8(bcd_of(c.tod_clock.hours), 7, c.tod_clock.pm))
    } else if reg == 0x0c {
        (c, 0)
    } else if reg == 0x0d {
        (
            Cia {
                int_control: Icr { data: 0, ..c.int_control },
                int_delay: CycleCounter { cycles: 0, feed: 0, ..c.int_delay },
                irq_line: IrqLine {
                    line: with_bit_u8(c.irq_line.line, c.mode.source() as u8, false),
                    ..c.irq_line
                },
                ..c
            },
            with_bit_u8(c.int_control.data, 7, c.int_control.mask & c.int_control.data != 0),
        )
    } else if reg == 0x0e {
        (c, config_of(c.timer_a))
    } else {
        (c, with_bit_u8(config_of(c.timer_b), 7, c.tod_set_alarm))
    }
}

/// Reading ICR acknowledges: a second read right after shows no events and
/// no request, and the read releases this CIA's hold on its interrupt line.
pub proof fn law_icr_read_acknowledges(c: Cia)
    ensures
        cia_read(cia_read(c, 0x0d).0, 0x0d).1 == 0,
        !bit_of_u8(cia_read(c, 0x0d).0.irq_line.line, c.mode.source() as u8),
{
    let m = c.int_control.mask;
    let l = c.irq_line.line;
    let b = c.mode.source() as u8;
    assert(with_bit_u8(0u8, 7, m & 0u8 != 0) == 0 && !bit_of_u8(with_bit_u8(l, b, false), b))
        by (bit_vector)
        requires
            b < 8,
    ;
}

/// The time-of-day register being written: the alarm while CRB bit 7 is set, else the clock.
pub open spec fn tod_target(c: Cia) -> Rtc {
    if c.tod_set_alarm { c.tod_alarm } else { c.tod_clock }
}

/// `c` with the time-of-day register being written replaced by `r`.
pub open spec fn with_tod(c: Cia, r: Rtc) -> Cia {
    if c.tod_set_alarm { Cia { tod_alarm: r, ..c } } else { Cia { tod_clock: r, ..c } }
}

/// The CIA after `value` is written to `reg`.
pub open spec fn cia_written(c: Cia, reg: u8, value: u8) -> Cia {
    if reg < 4 {
        port_written(c, reg, value)
    } else if reg < 8 {
        latch_written(c, reg, value)
    } else if reg < 12 {
        tod_written(c, reg, value)
    } else if reg == 0x0c {
        c
    } else if reg == 0x0d {
        let icr = Icr { mask: updated_mask(c.int_control.mask, value), ..c.int_control };
        let delay = if icr.mask & icr.data != 0 {
            CycleCounter { cycles: c.int_delay.cycles | INTERRUPT0, ..c.int_delay }
        } else {
            c.int_delay
        };
        Cia { int_control: icr, int_delay: delay, ..c }
    } else if reg == 0x0e {
        Cia { timer_a: configured(c.timer_a, value), ..c }
    } else {
        Cia { timer_b: configured(c.timer_b, value), tod_set_alarm: bit_of_u8(value, 7), ..c }
    }
}

/// A write to a port data (0, 1) or direction (2, 3) register.
pub open spec fn port_written(c: Cia, reg: u8, value: u8) -> Cia {
    if reg == 0x00 {
        Cia { port_a: noticed(IoPort { output: value, ..c.port_a }), ..c }
    } else if reg == 0x01 {
        Cia { port_b: noticed(IoPort { output: value, ..c.port_b }), ..c }
    } else if reg == 0x02 {
        Cia { port_a: noticed(IoPort { direction: value, ..c.port_a }), ..c }
    } else {
        Cia { port_b: noticed(IoPort { direction: value, ..c.port_b }), ..c }
    }
}

/// A write to a timer latch byte (4 to 7).
pub open spec fn latch_written(c: Cia, reg: u8, value: u8) -> Cia {
    if reg == 0x04 {
        Cia { timer_a: Timer { latch: (c.timer_a.latch & 0xff00) | (value as u16), ..c.timer_a }, ..c }
    } else if reg == 0x05 {
        Cia { timer_a: latch_hi_written(c.timer_a, value), ..c }
    } else if reg == 0x06 {
        Cia { timer_b: Timer { latch: (c.timer_b.latch & 0xff00) | (value as u16), ..c.timer_b }, ..c }
    } else {
        Cia { timer_b: latch_hi_written(c.timer_b, value), ..c }
    }
}

/// A write to a time-of-day register (8 to 11), which goes to the alarm while
/// CRB bit 7 is set; writing the hours stops the clock until the tenths are read.
pub open spec fn tod_written(c: Cia, reg: u8, value: u8) -> Cia {
    if reg == 0x08 {
        with_tod(c, Rtc { tenth: bcd_value(value & 0x0f), ..tod_target(c) })
    } else if reg == 0x09 {
        with_tod(c, Rtc { seconds: bcd_value(value & 0x7f), ..tod_target(c) })
    } else if reg == 0x0a {
        with_tod(c, Rtc { minutes: bcd_value(value & 0x7f), ..tod_target(c) })
    } else {
        with_tod(
            c,
            Rtc {
                enabled: false,
                hours: bcd_value(value & 0x7f),
                pm: bit_of_u8(value, 7),
                ..tod_target(c)
            },
        )
    }
}

/// A timer after its latch high byte is written; a stopped timer also schedules a load.
pub open spec fn latch_hi_written(t: Timer, value: u8) -> Timer {
    Timer {
        latch: ((value as u16) << 8u16) | (t.latch & 0x00ff),
        delay: if t.enabled {
            t.delay
        } else {
            CycleCounter { cycles: t.delay.cycles | LOAD0, ..t.delay }
        },
        ..t
    }
}

/// The CIA after one clock: both timers run (timer B fed by timer A's
/// underflow), underflows and a falling FLAG edge latch events, an enabled
/// event starts the two-cycle interrupt delay, and its end pulls the IRQ line.
pub open spec fn cia_clocked(c: Cia) -> Cia {
    let (ta, a_out) = clocked(fed(c.timer_a, false));
    let (tb, b_out) = clocked(fed(c.timer_b, a_out));
    let falling = c.flag_pin.last == State::High && c.flag_pin.state == State::Low;
    let d0 = c.int_control.data;
    let d1 = if a_out { with_bit_u8(d0, 0, true) } else { d0 };
    let d2 = if b_out { with_bit_u8(d1, 1, true) } else { d1 };
    let d3 = if falling { with_bit_u8(d2, 4, true) } else { d2 };
    let icr = Icr { data: d3, ..c.int_control };
    let event = a_out || b_out || falling;
    let delay = if event && icr.mask & icr.data != 0 {
        CycleCounter { cycles: c.int_delay.cycles | INTERRUPT0, ..c.int_delay }
    } else {
        c.int_delay
    };
    let irq = if delay.cycles & INTERRUPT1 != 0 {
        IrqLine { line: with_bit_u8(c.irq_line.line, c.mode.source() as u8, true), ..c.irq_line }
    } else {
        c.irq_line
    };
    Cia {
        timer_a: ta,
        timer_b: tb,
        int_control: icr,
        int_delay: CycleCounter {
            cycles: ((delay.cycles << 1u16) & delay.mask) | delay.feed,
            ..delay
        },
        irq_line: irq,
        ..c
    }
}

/// The CIA after `n` clocks.
pub open spec fn cia_clocked_n(c: Cia, n: nat) -> Cia
    decreases n,
{
    if n == 0 {
        c
    } else {
        cia_clocked(cia_clocked_n(c, (n - 1) as nat))
    }
}

/// The CIA after a reset: interrupt state, timers and ports back to their
/// power-on values (ports inputs with zero registers, timer latches all
/// ones), CNT high, FLAG low, and the time-of-day clock and alarm zero.
pub open spec fn cia_reset(c: Cia) -> Cia {
    let cnt = |p: Pin| Pin { last: p.state, state: State::High };
    Cia {
        int_control: Icr { data: 0, mask: 0 },
        int_delay: CycleCounter { cycles: 0, feed: 0, ..c.int_delay },
        timer_a: Timer { cnt_pin: cnt(c.timer_a.cnt_pin), ..timer_reset(c.timer_a) },
        timer_b: Timer { cnt_pin: cnt(c.timer_b.cnt_pin), ..timer_reset(c.timer_b) },
        tod_alarm: rtc_zero(),
        tod_clock: rtc_zero(),
        tod_set_alarm: false,
        flag_pin: Pin { last: c.flag_pin.state, state: State::Low },
        port_a: noticed(IoPort { direction: 0, input: 0xff, output: 0, ..c.port_a }),
        port_b: noticed(IoPort { direction: 0, input: 0xff, output: 0, ..c.port_b }),
        ..c
    }
}

/// A timer after reset.
pub open spec fn timer_reset(t: Timer) -> Timer {
    Timer {
        enabled: false,
        input_mode: super::timer::InputMode::SystemClock,
        output_mode: super::timer::OutputMode::Pulse,
        pb_on: false,
        run_mode: super::timer::RunMode::OneShot,
        counter: 0,
        delay: CycleCounter { cycles: 0, feed: 0, ..t.delay },
        latch: 0xffff,
        pb_output: false,
        pb_toggle: false,
        ..t
    }
}

impl Cia {
    /// Both timers are well formed and each runs in the mode of its slot.
    pub open spec fn wf(&self) -> bool {
        &&& self.timer_a.wf()
        &&& self.timer_b.wf()
        &&& self.timer_a.mode == TimerMode::TimerA
        &&& self.timer_b.mode == TimerMode::TimerB
    }

    /// A CIA with the given wiring; the timers start stopped with CNT high.
    pub fn new(
        mode: Mode,
        cia_flag: Pin,
        cia_port_a: IoPort,
        cia_port_b: IoPort,
        irq_line: IrqLine,
        joystick_1: Option<u8>,
        joystick_2: Option<u8>,
        keyboard_matrix: [u8; 8],
    ) -> (c: Cia)
        ensures
            c.wf(),
            c.mode == mode,
            c.flag_pin == cia_flag,
            c.port_a == cia_port_a,
            c.port_b == cia_port_b,
            c.irq_line == irq_line,
            c.joystick_1 == joystick_1,
            c.joystick_2 == joystick_2,
            c.keyboard_matrix == keyboard_matrix,
            c.int_control == (Icr { data: 0, mask: 0 }),
            c.int_delay == (CycleCounter { mask: 0xffff, cycles: 0, feed: 0 }),
            c.timer_a == new_timer(TimerMode::TimerA, (Pin { state: State::High, last: State::High })),
            c.timer_b == new_timer(TimerMode::TimerB, (Pin { state: State::High, last: State::High })),
            c.tod_alarm == rtc_zero(),
            c.tod_clock == rtc_zero(),
            !c.tod_set_alarm,
    {
        Cia {
            mode,
            irq_line,
            joystick_1,
            joystick_2,
            keyboard_matrix,
            int_control: Icr::new(),
            int_delay: CycleCounter::new(0xffff),
            timer_a: Timer::new(TimerMode::TimerA, Pin::new_high()),
            timer_b: Timer::new(TimerMode::TimerB, Pin::new_high()),
            tod_alarm: Rtc::new(),
            tod_clock: Rtc::new(),
            tod_set_alarm: false,
            flag_pin: cia_flag,
            port_a: cia_port_a,
            port_b: cia_port_b,
        }
    }

    fn read_cia1_port_a(&self) -> (r: u8)
        ensures
            r == self.port_a.value() & joystick_bits(self.joystick_2),
    {
        let joystick_state = self.scan_joystick(self.joystick_2);
        self.port_a.get_value() & joystick_state
    }

    fn read_cia1_port_b(&self) -> (r: u8)
        requires
            self.mode == Mode::Cia1,
        ensures
            r == port_b_reading(*self),
    {
        let pa = self.port_a.get_value();
        let keyboard_state = if pa == 0x00 {
            0x00
        } else if pa == 0xff {
            0xff
        } else {
            self.scan_keyboard(!pa)
        };
        let joystick_state = self.scan_joystick(self.joystick_1);
        let result = self.port_b.get_value() & keyboard_state & joystick_state;
        self.with_pb(result)
    }

    fn read_cia2_port_a(&self) -> (r: u8)
        ensures
            r == self.port_a.value(),
    {
        self.port_a.get_value()
    }

    fn read_cia2_port_b(&self) -> (r: u8)
        requires
            self.mode == Mode::Cia2,
        ensures
            r == port_b_reading(*self),
    {
        let result = self.port_b.get_value();
        self.with_pb(result)
    }

    fn with_pb(&self, value: u8) -> (r: u8)
        ensures
            r == with_pb_outputs(value, self.timer_a, self.timer_b),
    {
        let mut result = value;
        if self.timer_a.is_pb_on() {
            result = set_bit_u8(result, 6, self.timer_a.get_pb_output());
        }
        if self.timer_b.is_pb_on() {
            result = set_bit_u8(result, 7, self.timer_b.get_pb_output());
        }
        result
    }

    fn scan_joystick(&self, joystick: Option<u8>) -> (r: u8)
        ensures
            r == joystick_bits(joystick),
    {
        match joystick {
            Some(state) => !state,
            None => 0xff,
        }
    }

    fn scan_keyboard(&self, columns: u8) -> (r: u8)
        ensures
            r == scan_rows(self.keyboard_matrix@, columns, 8),
    {
        let mut result: u8 = 0;
        let mut i: usize = 0;
        while i < 8
            invariant
                i <= 8,
                result == scan_rows(self.keyboard_matrix@, columns, i as nat),
            decreases 8 - i,
        {
            if get_bit_u8(columns, i) {
                result = result | self.keyboard_matrix[i];
            }
            i = i + 1;
        }
        result
    }

    fn set_interrupt(&mut self, enabled: bool)
        ensures
            *final(self) == (Cia {
                irq_line: IrqLine {
                    line: with_bit_u8(old(self).irq_line.line, old(self).mode.source() as u8, enabled),
                    ..old(self).irq_line
                },
                ..*old(self)
            }),
    {
        let source = self.mode.irq_source();
        if enabled {
            self.irq_line.set(source);
        } else {
            self.irq_line.clear(source);
        }
    }

    /// Emulates one clock cycle.
    pub fn clock(&mut self)
        requires
            old(self).wf(),
        ensures
            final(self).wf(),
            *final(self) == cia_clocked(*old(self)),
    {
        self.timer_a.feed_source(false);
        let timer_a_output = self.timer_a.clock();
        self.timer_b.feed_source(timer_a_output);
        let timer_b_output = self.timer_b.clock();
        let mut int_event = false;
        if timer_a_output {
            self.int_control.set_event(0);
            int_event = true;
        }
        if timer_b_output {
            self.int_control.set_event(1);
            int_event = true;
        }
        if self.flag_pin.is_falling() {
            self.int_control.set_event(4);
            int_event = true;
        }
        if int_event && self.int_control.get_interrupt_request() {
            self.int_delay.feed(INTERRUPT0);
        }
        if self.int_delay.has_cycle(INTERRUPT1) {
            self.set_interrupt(true);
        }
        self.int_delay.clock();
    }

    /// Emulates `delta` clock cycles.
    pub fn clock_delta(&mut self, delta: u32)
        requires
            old(self).wf(),
        ensures
            final(self).wf(),
            *final(self) == cia_clocked_n(*old(self), delta as nat),
    {
        let mut i: u32 = 0;
        while i < delta
            invariant
                i <= delta,
                self.wf(),
                *self == cia_clocked_n(*old(self), i as nat),
            decreases delta - i,
        {
            self.clock();
            i = i + 1;
        }
    }

    /// Handles vertical sync: the time-of-day clock advances a tenth.
    pub fn process_vsync(&mut self)
        requires
            old(self).tod_clock.can_tick(),
        ensures
            *final(self) == (Cia { tod_clock: ticked(old(self).tod_clock), ..*old(self) }),
    {
        self.tod_clock.tick();
    }

    /// Resets the chip.
    pub fn reset(&mut self)
        requires
            old(self).wf(),
        ensures
            final(self).wf(),
            *final(self) == cia_reset(*old(self)),
    {
        self.int_control.reset();
        self.int_delay.reset();
        self.timer_a.reset();
        self.timer_b.reset();
        self.tod_alarm = Rtc::new();
        self.tod_clock = Rtc::new();
        self.tod_set_alarm = false;
        self.timer_a.cnt_pin.set_active(true);
        self.timer_b.cnt_pin.set_active(true);
        self.flag_pin.set_active(false);
        self.port_a.reset();
        self.port_b.reset();
    }

    /// Reads register `reg`.
    pub fn read(&mut self, reg: u8) -> (value: u8)
        requires
            reg < 16,
        ensures
            (*final(self), value) == cia_read(*old(self), reg),
    {
        match Reg::from(reg) {
            Reg::PRA => match self.mode {
                Mode::Cia1 => self.read_cia1_port_a(),
                Mode::Cia2 => self.read_cia2_port_a(),
            },
            Reg::PRB => match self.mode {
                Mode::Cia1 => self.read_cia1_port_b(),
                Mode::Cia2 => self.read_cia2_port_b(),
            },
            Reg::DDRA => self.port_a.get_direction(),
            Reg::DDRB => self.port_b.get_direction(),
            Reg::TALO => self.timer_a.get_counter_lo(),
            Reg::TAHI => self.timer_a.get_counter_hi(),
            Reg::TBLO => self.timer_b.get_counter_lo(),
            Reg::TBHI => self.timer_b.get_counter_hi(),
            Reg::TODTS => {
                self.tod_clock.set_enabled(true);
                to_bcd(self.tod_clock.get_tenth())
            },
            Reg::TODSEC => to_bcd(self.tod_clock.get_seconds()),
            Reg::TODMIN => to_bcd(self.tod_clock.get_minutes()),
            Reg::TODHR => {
                let result = to_bcd(self.tod_clock.get_hours());
                set_bit_u8(result, 7, self.tod_clock.get_pm())
            },
            Reg::SDR => 0,
            Reg::ICR => {
                let data = self.int_control.get_data();
                self.int_control.clear();
                self.int_delay.reset();
                self.set_interrupt(false);
                data
            },
            Reg::CRA => self.timer_a.get_config(),
            Reg::CRB => {
                let config = self.timer_b.get_config();
                set_bit_u8(config, 7, self.tod_set_alarm)
            },
        }
    }

    /// Writes `value` to register `reg`.
    pub fn write(&mut self, reg: u8, value: u8)
        requires
            reg < 16,
            old(self).wf(),
        ensures
            final(self).wf(),
            *final(self) == cia_written(*old(self), reg, value),
    {
        if reg < 4 {
            self.write_port(reg, value);
        } else if reg < 8 {
            self.write_latch(reg, value);
        } else if reg < 12 {
            self.write_tod(reg, value);
        } else if reg == 0x0c {
        } else if reg == 0x0d {
            self.int_control.update_mask(value);
            if self.int_control.get_interrupt_request() {
                self.int_delay.feed(INTERRUPT0);
            }
        } else if reg == 0x0e {
            self.timer_a.set_config(value);
        } else {
            self.timer_b.set_config(value);
            self.tod_set_alarm = get_bit_u8(value, 7);
        }
    }

    fn write_port(&mut self, reg: u8, value: u8)
        requires
            reg < 4,
            old(self).wf(),
        ensures
            final(self).wf(),
            *final(self) == port_written(*old(self), reg, value),
    {
        if reg == 0 {
            self.port_a.set_value(value);
        } else if reg == 1 {
            self.port_b.set_value(value);
        } else if reg == 2 {
            self.port_a.set_direction(value);
        } else {
            self.port_b.set_direction(value);
        }
    }

    #[verifier::rlimit(40)]
    fn write_latch(&mut self, reg: u8, value: u8)
        requires
            4 <= reg < 8,
            old(self).wf(),
        ensures
            final(self).wf(),
            *final(self) == latch_written(*old(self), reg, value),
    {
        if reg == 4 {
            self.timer_a.set_latch_lo(value);
        } else if reg == 5 {
            self.timer_a.set_latch_hi(value);
        } else if reg == 6 {
            self.timer_b.set_latch_lo(value);
        } else {
            self.timer_b.set_latch_hi(value);
        }
    }

    fn write_tod(&mut self, reg: u8, value: u8)
        requires
            8 <= reg < 12,
            old(self).wf(),
        ensures
            final(self).wf(),
            *final(self) == tod_written(*old(self), reg, value),
    {
        let mut tod = if !self.tod_set_alarm {
            self.tod_clock.copy()
        } else {
            self.tod_alarm.copy()
        };
        if reg == 8 {
            tod.set_tenth(from_bcd(value & 0x0f));
        } else if reg == 9 {
            tod.set_seconds(from_bcd(value & 0x7f));
        } else if reg == 10 {
            tod.set_minutes(from_bcd(value & 0x7f));
        } else {
            tod.set_enabled(false);
            tod.set_hours(from_bcd(value & 0x7f));
            tod.set_pm(get_bit_u8(value, 7));
        }
        if !self.tod_set_alarm {
            self.tod_clock = tod;
        } else {
            self.tod_alarm = tod;
        }
    }
}

/// The CIA as a clocked chip with sixteen registers.
impl Chip for Cia {
    open spec fn inv(&self) -> bool {
        self.wf()
    }

    open spec fn is_reg(reg: u8) -> bool {
        reg < 16
    }

    open spec fn vsync_ready(&self) -> bool {
        self.tod_clock.can_tick()
    }

    fn clock(&mut self)
        ensures
            *final(self) == cia_clocked(*old(self)),
    {
        Cia::clock(self);
    }

    fn clock_delta(&mut self, delta: u32)
        ensures
            *final(self) == cia_clocked_n(*old(self), delta as nat),
    {
        Cia::clock_delta(self, delta);
    }

    fn process_vsync(&mut self)
        ensures
            *final(self) == (Cia { tod_clock: ticked(old(self).tod_clock), ..*old(self) }),
    {
        Cia::process_vsync(self);
    }

    fn reset(&mut self)
        ensures
            *final(self) == cia_reset(*old(self)),
    {
        Cia::reset(self);
    }

    fn read(&mut self, reg: u8) -> (value: u8)
        ensures
            (*final(self), value) == cia_read(*old(self), reg),
    {
        Cia::read(self, reg)
    }

    fn write(&mut self, reg: u8, value: u8)
        ensures
            *final(self) == cia_written(*old(self), reg, value),
    {
        Cia::write(self, reg, value);
    }
}

} // verus!
