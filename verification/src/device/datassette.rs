//! The datassette: plays tape pulses onto the CIA 1 FLAG pin while the
//! motor, controlled through the CPU port, runs.

use vstd::prelude::*;
use crate::bits::{bit_of_u8, get_bit_u8, with_bit_u8};
use crate::common::io_port::{noticed, IoPort};
use crate::common::pin::{Pin, State};
use super::tape::Tape;

verus! {

/// The share of a pulse, in percent, during which the FLAG line is high.
pub const DUTY_CYCLE: u32 = 50;

/// CPU port bit sensing the play button (0 = pressed).
pub const CASSETTE_SWITCH: usize = 4;
/// CPU port bit driving the motor (0 = running).
pub const CASSETTE_MOTOR: usize = 5;

/// The CPU port lines the datassette uses.
#[derive(Copy, Clone, PartialEq, Eq, Structural)]
pub enum ControlPort {
    CassetteSwitch,
    CassetteMotor,
}

impl ControlPort {
    /// The port bit of this line.
    pub fn value(self) -> (r: usize)
        ensures
            r == (match self {
                ControlPort::CassetteSwitch => CASSETTE_SWITCH,
                ControlPort::CassetteMotor => CASSETTE_MOTOR,
            }),
    {
        match self {
            ControlPort::CassetteSwitch => CASSETTE_SWITCH,
            ControlPort::CassetteMotor => CASSETTE_MOTOR,
        }
    }
}

/// A pulse being played: the cycles still low, and the cycles left in all.
pub struct Pulse {
    pub low_cycles: u32,
    pub remaining_cycles: u32,
}

/// A pulse of `length` cycles that is low for the first (100 - duty)% of it.
pub open spec fn new_pulse(length: u32, duty: u32) -> Pulse {
    Pulse {
        low_cycles: (length * (100 - duty) / 100) as u32,
        remaining_cycles: length,
    }
}

impl Pulse {
    /// Never more low cycles than cycles left.
    pub open spec fn wf(&self) -> bool {
        self.low_cycles <= self.remaining_cycles
    }

    /// A fresh pulse.
    pub fn new(length: u32, duty: u32) -> (r: Self)
        requires
            duty <= 100,
            length * (100 - duty) <= u32::MAX,
        ensures
            r == new_pulse(length, duty),
            r.wf(),
    {
        assert(length * (100 - duty) / 100 <= length) by (nonlinear_arith)
            requires
                duty <= 100,
        ;
        Self {
            low_cycles: length * (100 - duty) / 100,
            remaining_cycles: length,
        }
    }

    /// Whether the pulse has been played out.
    pub fn is_done(&self) -> (r: bool)
        ensures
            r == (self.remaining_cycles == 0),
    {
        self.remaining_cycles == 0
    }

    /// Plays one cycle; returns the line level (true once the low part is over).
    pub fn advance(&mut self) -> (r: bool)
        requires
            old(self).remaining_cycles > 0,
            old(self).wf(),
        ensures
            final(self).wf(),
            final(self).remaining_cycles == old(self).remaining_cycles - 1,
            r == (old(self).low_cycles == 0),
            final(self).low_cycles == if r { 0 } else { (old(self).low_cycles - 1) as u32 },
            *final(self) == advanced(*old(self)),
    {
        self.remaining_cycles = self.remaining_cycles - 1;
        if self.low_cycles == 0 {
            true
        } else {
            self.low_cycles = self.low_cycles - 1;
            false
        }
    }
}

/// A pulse after one cycle of play.
pub open spec fn advanced(p: Pulse) -> Pulse {
    Pulse {
        low_cycles: if p.low_cycles == 0 { 0 } else { (p.low_cycles - 1) as u32 },
        remaining_cycles: (p.remaining_cycles - 1) as u32,
    }
}

/// A pulse after `k` cycles of play.
pub open spec fn advanced_n(p: Pulse, k: nat) -> Pulse
    decreases k,
{
    if k == 0 {
        p
    } else {
        advanced(advanced_n(p, (k - 1) as nat))
    }
}

/// Playing a fresh pulse: after `k` of its `len` cycles, `len - k` remain
/// and the low part has `low - k` cycles left (none once they are over), so
/// the k-th cycle (from 1) drives the line high exactly when `k` exceeds the
/// low part `len * (100 - duty) / 100`.
pub proof fn law_pulse_cycles(len: u32, duty: u32, k: nat)
    requires
        duty <= 100,
        len * (100 - duty) <= u32::MAX,
        k <= len,
    ensures
        advanced_n(new_pulse(len, duty), k).remaining_cycles == len - k,
        advanced_n(new_pulse(len, duty), k).low_cycles == if k >= new_pulse(len, duty).low_cycles {
            0
        } else {
            new_pulse(len, duty).low_cycles - k
        },
        k >= 1 ==> ((advanced_n(new_pulse(len, duty), (k - 1) as nat).low_cycles == 0) == (k
            > len * (100 - duty) / 100)),
    decreases k,
{
    assert(len * (100 - duty) / 100 <= len) by (nonlinear_arith)
        requires
            duty <= 100,
    ;
    if k > 0 {
        law_pulse_cycles(len, duty, (k - 1) as nat);
    }
}

/// Whether the motor runs: CPU port bit 5 is low.
pub open spec fn motor_on(port: IoPort) -> bool {
    !bit_of_u8(port.value(), CASSETTE_MOTOR as u8)
}

/// The CPU port with the play-button sense line at `released`.
pub open spec fn with_switch(port: IoPort, released: bool) -> IoPort {
    noticed(IoPort { input: with_bit_u8(port.input, CASSETTE_SWITCH as u8, released), ..port })
}

/// The datassette: whether play is pressed, the tape, and the pulse being played.
pub struct Datassette<T: Tape> {
    pub playing: bool,
    pub tape: Option<T>,
    pub current_pulse: Pulse,
}

impl<T: Tape> Datassette<T> {
    /// Whether the inserted tape, if any, can be played.
    pub open spec fn tape_ok(&self) -> bool {
        match self.tape {
            Some(t) => t.inv(),
            None => true,
        }
    }

    /// A stopped datassette without a tape.
    pub fn new() -> (r: Self)
        ensures
            !r.playing,
            r.tape is None,
            r.current_pulse == new_pulse(0, DUTY_CYCLE),
            r.current_pulse.wf(),
            r.tape_ok(),
    {
        Self { playing: false, tape: None, current_pulse: Pulse::new(0, DUTY_CYCLE) }
    }

    /// Inserts a tape.
    pub fn attach(&mut self, tape: T)
        requires
            tape.inv(),
        ensures
            final(self).tape == Some(tape),
            final(self).tape_ok(),
            final(self).playing == old(self).playing,
            final(self).current_pulse == old(self).current_pulse,
    {
        self.tape = Some(tape);
    }

    /// Emulates one cycle: while playing with the motor on, a finished pulse
    /// is followed by the tape's next one (or playback stops at the end of the
    /// tape), and the pulse drives the FLAG pin.
    pub fn clock(&mut self, cia_flag_pin: &mut Pin, cpu_io_port: &mut IoPort)
        requires
            old(self).current_pulse.wf(),
            old(self).tape_ok(),
        ensures
            final(self).current_pulse.wf(),
            final(self).tape_ok(),
            !(old(self).playing && motor_on(*old(cpu_io_port)) && old(self).tape is Some) ==> {
                &&& final(self).playing == old(self).playing
                &&& final(self).tape == old(self).tape
                &&& final(self).current_pulse == old(self).current_pulse
                &&& *final(cia_flag_pin) == *old(cia_flag_pin)
                &&& *final(cpu_io_port) == *old(cpu_io_port)
            },
            (old(self).playing && motor_on(*old(cpu_io_port)) && old(self).tape is Some
                && old(self).current_pulse.remaining_cycles != 0) ==> {
                &&& final(self).playing
                &&& final(self).tape == old(self).tape
                &&& final(self).current_pulse.remaining_cycles == old(self).current_pulse.remaining_cycles - 1
                &&& final(cia_flag_pin).last == old(cia_flag_pin).state
                &&& final(cia_flag_pin).state == (if old(self).current_pulse.low_cycles == 0 {
                    State::High
                } else {
                    State::Low
                })
                &&& *final(cpu_io_port) == *old(cpu_io_port)
            },
            (old(self).playing && motor_on(*old(cpu_io_port)) && old(self).tape is Some
                && old(self).current_pulse.remaining_cycles == 0) ==> {
                &&& final(self).tape == Some(old(self).tape->0.after_read())
                &&& match old(self).tape->0.next_pulse() {
                    None => {
                        &&& !final(self).playing
                        &&& *final(cpu_io_port) == with_switch(*old(cpu_io_port), true)
                        &&& *final(cia_flag_pin) == *old(cia_flag_pin)
                        &&& final(self).current_pulse == old(self).current_pulse
                    },
                    Some(p) => {
                        let pulse = new_pulse(p, DUTY_CYCLE);
                        &&& final(self).playing
                        &&& *final(cpu_io_port) == *old(cpu_io_port)
                        &&& (p == 0 ==> final(self).current_pulse == pulse
                            && *final(cia_flag_pin) == *old(cia_flag_pin))
                        &&& (p != 0 ==> final(self).current_pulse.remaining_cycles == p - 1
                            && final(self).current_pulse.low_cycles == (if pulse.low_cycles == 0 {
                                0
                            } else {
                                (pulse.low_cycles - 1) as u32
                            })
                            && final(cia_flag_pin).last == old(cia_flag_pin).state
                            && final(cia_flag_pin).state == (if pulse.low_cycles == 0 {
                                State::High
                            } else {
                                State::Low
                            }))
                    },
                }
            },
    {
        if self.is_playing(cpu_io_port) && self.tape.is_some() {
            if self.current_pulse.is_done() {
                let pulse_maybe = match self.tape {
                    Some(ref mut tape) => tape.read_pulse(),
                    None => None,
                };
                match pulse_maybe {
                    Some(pulse) => {
                        self.current_pulse = Pulse::new(pulse, DUTY_CYCLE);
                    },
                    None => {
                        self.stop(cpu_io_port);
                    },
                }
            }
            if !self.current_pulse.is_done() {
                let level = self.current_pulse.advance();
                cia_flag_pin.set_active(level);
            }
        }
    }

    /// Ejects the tape, stopping playback.
    pub fn detach(&mut self, cpu_io_port: &mut IoPort)
        ensures
            final(self).tape is None,
            !final(self).playing,
            final(self).current_pulse == old(self).current_pulse,
            *final(cpu_io_port) == with_switch(*old(cpu_io_port), true),
    {
        self.stop(cpu_io_port);
        self.tape = None;
    }

    /// Whether the tape is playing: play pressed and the motor on.
    pub fn is_playing(&self, cpu_io_port: &IoPort) -> (r: bool)
        ensures
            r == (self.playing && motor_on(*cpu_io_port)),
    {
        let motor_on = !get_bit_u8(cpu_io_port.get_value(), CASSETTE_MOTOR);
        self.playing && motor_on
    }

    /// Presses play, when a tape is inserted.
    pub fn play(&mut self, cpu_io_port: &mut IoPort)
        ensures
            old(self).tape is Some ==> final(self).playing
                && *final(cpu_io_port) == with_switch(*old(cpu_io_port), false),
            old(self).tape is None ==> final(self).playing == old(self).playing
                && *final(cpu_io_port) == *old(cpu_io_port),
            final(self).tape == old(self).tape,
            final(self).current_pulse == old(self).current_pulse,
    {
        if self.tape.is_some() {
            cpu_io_port.set_input_bit(ControlPort::CassetteSwitch.value(), false);
            self.playing = true;
        }
    }

    /// Stops playback and rewinds the tape.
    pub fn reset(&mut self, cpu_io_port: &mut IoPort)
        requires
            old(self).tape_ok(),
        ensures
            final(self).tape_ok(),
            !final(self).playing,
            final(self).current_pulse == new_pulse(0, DUTY_CYCLE),
            final(self).current_pulse.wf(),
            old(self).tape is Some ==> final(self).tape == Some(old(self).tape->0.after_seek(0).0),
            old(self).tape is None ==> final(self).tape is None,
            *final(cpu_io_port) == with_switch(*old(cpu_io_port), true),
    {
        cpu_io_port.set_input_bit(ControlPort::CassetteSwitch.value(), true);
        self.playing = false;
        self.current_pulse = Pulse::new(0, DUTY_CYCLE);
        if let Some(ref mut tape) = self.tape {
            proof {
                tape.lemma_rewind();
            }
            tape.seek(0);
        }
    }

    /// Releases play.
    pub fn stop(&mut self, cpu_io_port: &mut IoPort)
        ensures
            !final(self).playing,
            final(self).current_pulse == old(self).current_pulse,
            final(self).tape == old(self).tape,
            *final(cpu_io_port) == with_switch(*old(cpu_io_port), true),
    {
        cpu_io_port.set_input_bit(ControlPort::CassetteSwitch.value(), true);
        self.playing = false;
    }
}

} // verus!
