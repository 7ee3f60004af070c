//! A CIA interval timer with its count, load and PB-output pipelines.

use vstd::prelude::*;
use crate::bits::{bit_of_u8, get_bit_u8, set_bit_u8, with_bit_u8};
use crate::common::pin::{Pin, State};
use super::cycle_counter::CycleCounter;

verus! {

/// Pipeline stage: a system-clock count enters.
pub const COUNT0: u16 = 1;
/// Pipeline stage: a count one cycle in.
pub const COUNT1: u16 = 2;
/// Pipeline stage: a count two cycles in; the counter is checked for underflow.
pub const COUNT2: u16 = 4;
/// Pipeline stage: a count three cycles in; the counter is decremented.
pub const COUNT3: u16 = 8;
/// Pipeline stage: a forced load was requested.
pub const LOAD0: u16 = 16;
/// Pipeline stage: the counter is loaded from the latch.
pub const LOAD1: u16 = 32;
/// Pipeline stage: a PB pulse started.
pub const PB_LOW0: u16 = 64;
/// Pipeline stage: the PB pulse ends.
pub const PB_LOW1: u16 = 128;
/// Stages that only enter by being fed, never by shifting.
pub const CYCLE_DELAY_MASK: u16 = 0xffaf;

/// Which of the two CIA timers this is.
#[derive(Clone, Copy, PartialEq, Eq, Structural)]
pub enum Mode {
    TimerA,
    TimerB,
}

/// What the timer counts.
#[derive(Clone, Copy, PartialEq, Eq, Structural)]
pub enum InputMode {
    SystemClock,
    External,
    TimerA,
    TimerAWithCNT,
}

/// How underflows show on the PB output.
#[derive(Clone, Copy, PartialEq, Eq, Structural)]
pub enum OutputMode {
    Pulse,
    Toggle,
}

/// Whether the timer stops after an underflow.
#[derive(Clone, Copy, PartialEq, Eq, Structural)]
pub enum RunMode {
    Continuous,
    OneShot,
}

/// An interval timer: configuration, counter, latch and the delay pipeline.
pub struct Timer {
    pub cnt_pin: Pin,
    pub mode: Mode,
    pub enabled: bool,
    pub input_mode: InputMode,
    pub output_mode: OutputMode,
    pub pb_on: bool,
    pub run_mode: RunMode,
    pub counter: u16,
    pub delay: CycleCounter,
    pub latch: u16,
    pub pb_output: bool,
    pub pb_toggle: bool,
}

/// A stopped one-shot timer counting the system clock, counter and latch zero.
pub open spec fn new_timer(mode: Mode, cnt_pin: Pin) -> Timer {
    Timer {
        cnt_pin,
        mode,
        enabled: false,
        input_mode: InputMode::SystemClock,
        output_mode: OutputMode::Pulse,
        pb_on: false,
        run_mode: RunMode::OneShot,
        counter: 0,
        delay: CycleCounter { mask: CYCLE_DELAY_MASK, cycles: 0, feed: 0 },
        latch: 0,
        pb_output: false,
        pb_toggle: false,
    }
}

/// The input mode selected by a control register value for a timer of `mode`:
/// timer A looks at bit 5 only, timer B at bits 5 and 6.
pub open spec fn input_mode_of(mode: Mode, value: u8) -> InputMode {
    let sel = match mode {
        Mode::TimerA => if bit_of_u8(value, 5) { 1u8 } else { 0u8 },
        Mode::TimerB => (value & 0x60) >> 5u8,
    };
    if sel == 0 {
        InputMode::SystemClock
    } else if sel == 1 {
        InputMode::External
    } else if sel == 2 {
        InputMode::TimerA
    } else {
        InputMode::TimerAWithCNT
    }
}

/// The pipeline after starting (`on`) or stopping the timer: a running
/// system-clock timer feeds COUNT0 and COUNT1 and keeps feeding COUNT0;
/// otherwise both stages are dropped and the feed stops.
pub open spec fn delay_enabled(d: CycleCounter, on: bool, input: InputMode) -> CycleCounter {
    if on && input == InputMode::SystemClock {
        CycleCounter { cycles: (d.cycles | COUNT0) | COUNT1, feed: d.feed | COUNT0, ..d }
    } else {
        CycleCounter { cycles: (d.cycles & !COUNT0) & !COUNT1, feed: d.feed & !COUNT0, ..d }
    }
}

/// The timer after `enable(on)`.
pub open spec fn enabled_timer(t: Timer, on: bool) -> Timer {
    Timer { enabled: on, delay: delay_enabled(t.delay, on, t.input_mode), ..t }
}

/// The timer after writing `value` to its control register.
pub open spec fn configured(t: Timer, value: u8) -> Timer {
    let t2 = enabled_timer(config_fields(t, value), bit_of_u8(value, 0));
    pb_after_config(t2, t.enabled)
}

/// The mode fields a control register value selects, and a forced load when bit 4 is set.
pub open spec fn config_fields(t: Timer, value: u8) -> Timer {
    let output_mode = if bit_of_u8(value, 2) { OutputMode::Toggle } else { OutputMode::Pulse };
    let run_mode = if bit_of_u8(value, 3) { RunMode::OneShot } else { RunMode::Continuous };
    let d1 = if bit_of_u8(value, 4) {
        CycleCounter { cycles: t.delay.cycles | LOAD0, ..t.delay }
    } else {
        t.delay
    };
    Timer {
        pb_on: bit_of_u8(value, 1),
        output_mode,
        run_mode,
        delay: d1,
        input_mode: input_mode_of(t.mode, value),
        ..t
    }
}

/// After a control register write: a timer that was just started resets its
/// PB toggle to high, and an enabled PB output shows the pulse or toggle state.
pub open spec fn pb_after_config(t2: Timer, was_enabled: bool) -> Timer {
    let t3 = if t2.enabled && !was_enabled { Timer { pb_toggle: true, ..t2 } } else { t2 };
    if t3.pb_on {
        Timer {
            pb_output: match t3.output_mode {
                OutputMode::Pulse => t3.delay.cycles & PB_LOW1 != 0,
                OutputMode::Toggle => t3.pb_toggle,
            },
            ..t3
        }
    } else {
        t3
    }
}

/// The control register as read back.
pub open spec fn config_of(t: Timer) -> u8 {
    let c0 = with_bit_u8(0, 0, t.enabled);
    let c1 = with_bit_u8(c0, 1, t.pb_on);
    let c2 = with_bit_u8(c1, 2, t.output_mode == OutputMode::Toggle);
    let c3 = with_bit_u8(c2, 3, t.run_mode == RunMode::OneShot);
    match t.input_mode {
        InputMode::SystemClock => with_bit_u8(c3, 5, false),
        InputMode::External => with_bit_u8(c3, 5, true),
        InputMode::TimerA => with_bit_u8(with_bit_u8(c3, 5, false), 6, true),
        InputMode::TimerAWithCNT => with_bit_u8(with_bit_u8(c3, 5, true), 6, true),
    }
}

/// Clock phase 1: a count that reached COUNT3 decrements the counter.
pub open spec fn phase_count(t: Timer) -> Timer {
    if t.delay.cycles & COUNT3 != 0 {
        Timer { counter: (t.counter - 1) as u16, ..t }
    } else {
        t
    }
}

/// Clock phase 2: a count at COUNT2 with the counter at zero is an underflow:
/// the PB output reacts, a reload is scheduled, and a one-shot timer stops.
pub open spec fn phase_underflow(t: Timer) -> (Timer, bool) {
    if t.counter == 0 && t.delay.cycles & COUNT2 != 0 {
        let toggled = !t.pb_toggle;
        let (pb_output, d0) = if t.pb_on {
            match t.output_mode {
                OutputMode::Toggle => (!t.pb_output, t.delay),
                OutputMode::Pulse => (true, CycleCounter { cycles: t.delay.cycles | PB_LOW0, ..t.delay }),
            }
        } else {
            (t.pb_output, t.delay)
        };
        let d1 = CycleCounter { cycles: d0.cycles | LOAD1, ..d0 };
        let t1 = Timer { pb_toggle: toggled, pb_output, delay: d1, ..t };
        let t2 = if t.run_mode == RunMode::OneShot {
            let e = enabled_timer(t1, false);
            Timer { delay: CycleCounter { cycles: e.delay.cycles & !COUNT2, ..e.delay }, ..e }
        } else {
            t1
        };
        (t2, true)
    } else {
        (t, false)
    }
}

/// Clock phase 3: a reload at LOAD1 copies the latch and drops the count at COUNT2.
pub open spec fn phase_load(t: Timer) -> Timer {
    if t.delay.cycles & LOAD1 != 0 {
        Timer {
            counter: t.latch,
            delay: CycleCounter { cycles: t.delay.cycles & !COUNT2, ..t.delay },
            ..t
        }
    } else {
        t
    }
}

/// Clock phase 4: a pulse at PB_LOW1 ends.
pub open spec fn phase_pb(t: Timer) -> Timer {
    if t.delay.cycles & PB_LOW1 != 0 {
        Timer { pb_output: false, ..t }
    } else {
        t
    }
}

/// Clock phase 5: the pipeline shifts.
pub open spec fn phase_shift(t: Timer) -> Timer {
    Timer {
        delay: CycleCounter {
            cycles: ((t.delay.cycles << 1u16) & t.delay.mask) | t.delay.feed,
            ..t.delay
        },
        ..t
    }
}

/// The timer after one clock, and whether it underflowed.
pub open spec fn clocked(t: Timer) -> (Timer, bool) {
    let (t2, underflow) = phase_underflow(phase_count(t));
    (phase_shift(phase_pb(phase_load(t2))), underflow)
}

/// The timer after its count source is sampled.
pub open spec fn fed(t: Timer, timer_a_output: bool) -> Timer {
    match t.input_mode {
        InputMode::SystemClock => t,
        InputMode::External => if t.cnt_pin.last == State::Low && t.cnt_pin.state == State::High {
            Timer { delay: CycleCounter { cycles: t.delay.cycles | COUNT0, ..t.delay }, ..t }
        } else {
            t
        },
        InputMode::TimerA => if timer_a_output {
            Timer { delay: CycleCounter { cycles: t.delay.cycles | COUNT1, ..t.delay }, ..t }
        } else {
            t
        },
        InputMode::TimerAWithCNT => if timer_a_output && t.cnt_pin.last == State::Low
            && t.cnt_pin.state == State::High {
            Timer { delay: CycleCounter { cycles: t.delay.cycles | COUNT0, ..t.delay }, ..t }
        } else {
            t
        },
    }
}

proof fn lemma_shift_count3(c: u16, feed: u16)
    requires
        feed & !COUNT0 == 0,
    ensures
        ((((c << 1u16) & CYCLE_DELAY_MASK) | feed) & COUNT3 != 0) == (c & COUNT2 != 0),
        ((((c << 1u16) & CYCLE_DELAY_MASK) | feed) & !COUNT0 & LOAD0) == 0,
{
    assert(((((c << 1u16) & 0xffafu16) | feed) & 8u16 != 0) == (c & 4u16 != 0) && ((((c << 1u16)
        & 0xffafu16) | feed) & !1u16 & 16u16) == 0) by (bit_vector)
        requires
            feed & !1u16 == 0,
    ;
}

/// Feeding or dropping any other stage leaves the COUNT3 stage as it was.
proof fn lemma_count3_kept(c: u16)
    ensures
        ((c | COUNT0) & COUNT3 != 0) == (c & COUNT3 != 0),
        ((c | COUNT1) & COUNT3 != 0) == (c & COUNT3 != 0),
        ((c | LOAD0) & COUNT3 != 0) == (c & COUNT3 != 0),
        ((c & !COUNT0) & COUNT3 != 0) == (c & COUNT3 != 0),
        ((c & !COUNT1) & COUNT3 != 0) == (c & COUNT3 != 0),
{
    assert(((c | 1u16) & 8u16 != 0) == (c & 8u16 != 0) && ((c | 2u16) & 8u16 != 0) == (c & 8u16
        != 0) && ((c | 16u16) & 8u16 != 0) == (c & 8u16 != 0) && ((c & !1u16) & 8u16 != 0) == (c
        & 8u16 != 0) && ((c & !2u16) & 8u16 != 0) == (c & 8u16 != 0)) by (bit_vector);
}

/// An underflow always leaves a reload scheduled, and a reload drops COUNT2.
proof fn lemma_reload_bits(c: u16)
    ensures
        (c | LOAD1) & LOAD1 != 0,
        ((c | PB_LOW0) | LOAD1) & LOAD1 != 0,
        ((((c | LOAD1) & !COUNT0) & !COUNT1) & !COUNT2) & LOAD1 != 0,
        (((((c | PB_LOW0) | LOAD1) & !COUNT0) & !COUNT1) & !COUNT2) & LOAD1 != 0,
        (c & !COUNT2) & COUNT2 == 0,
{
    assert((c | 32u16) & 32u16 != 0 && ((c | 64u16) | 32u16) & 32u16 != 0 && ((((c | 32u16) & !1u16)
        & !2u16) & !4u16) & 32u16 != 0 && (((((c | 64u16) | 32u16) & !1u16) & !2u16) & !4u16) & 32u16
        != 0 && (c & !4u16) & 4u16 == 0) by (bit_vector);
}

proof fn lemma_feed_masks(f: u16)
    requires
        f & !COUNT0 == 0,
    ensures
        (f | COUNT0) & !COUNT0 == 0,
        (f & !COUNT0) & !COUNT0 == 0,
{
    assert((f | 1u16) & !1u16 == 0 && (f & !1u16) & !1u16 == 0) by (bit_vector)
        requires
            f & !1u16 == 0,
    ;
}

/// One clock keeps the timer well formed: a count only reaches the
/// decrement stage while the counter is nonzero.
proof fn lemma_clocked_wf(t0: Timer)
    requires
        t0.wf(),
    ensures
        clocked(t0).0.wf(),
{
    let t1 = phase_count(t0);
    let t2 = phase_underflow(t1).0;
    let t3 = phase_load(t2);
    let t4 = phase_pb(t3);
    lemma_reload_bits(t1.delay.cycles);
    lemma_reload_bits(t2.delay.cycles);
    lemma_feed_masks(t1.delay.feed);
    lemma_count3_kept(t1.delay.cycles | LOAD1);
    lemma_count3_kept((t1.delay.cycles | PB_LOW0) | LOAD1);
    assert(t2.pipeline_ok());
    assert(t3.delay.cycles & COUNT2 != 0 ==> t3.counter != 0);
    lemma_shift_count3(t4.delay.cycles, t4.delay.feed);
}

impl Timer {
    /// The pipeline keeps its fixed mask, only COUNT0 is ever re-fed, and a
    /// count never reaches the decrement stage while the counter is zero.
    pub open spec fn wf(&self) -> bool {
        &&& self.pipeline_ok()
        &&& (self.delay.cycles & COUNT3 != 0 ==> self.counter != 0)
    }

    /// The pipeline keeps its fixed mask and only COUNT0 is ever re-fed.
    pub open spec fn pipeline_ok(&self) -> bool {
        &&& self.delay.mask == CYCLE_DELAY_MASK
        &&& self.delay.feed & !COUNT0 == 0
    }

    /// A stopped one-shot timer counting the system clock, counter and latch zero.
    pub fn new(mode: Mode, cnt_pin: Pin) -> (t: Timer)
        ensures
            t.wf(),
            t == new_timer(mode, cnt_pin),
    {
        let t = Timer {
            cnt_pin,
            mode,
            enabled: false,
            input_mode: InputMode::SystemClock,
            output_mode: OutputMode::Pulse,
            pb_on: false,
            run_mode: RunMode::OneShot,
            counter: 0,
            delay: CycleCounter::new(CYCLE_DELAY_MASK),
            latch: 0,
            pb_output: false,
            pb_toggle: false,
        };
        assert(0u16 & !1u16 == 0 && 0u16 & 8u16 == 0) by (bit_vector);
        t
    }

    /// The control register as read back.
    pub fn get_config(&self) -> (r: u8)
        ensures
            r == config_of(*self),
    {
        let mut config: u8 = 0;
        config = set_bit_u8(config, 0, self.enabled);
        config = set_bit_u8(config, 1, self.pb_on);
        config = set_bit_u8(config, 2, self.output_mode == OutputMode::Toggle);
        config = set_bit_u8(config, 3, self.run_mode == RunMode::OneShot);
        match self.input_mode {
            InputMode::SystemClock => {
                config = set_bit_u8(config, 5, false);
            },
            InputMode::External => {
                config = set_bit_u8(config, 5, true);
            },
            InputMode::TimerA => {
                config = set_bit_u8(config, 5, false);
                config = set_bit_u8(config, 6, true);
            },
            InputMode::TimerAWithCNT => {
                config = set_bit_u8(config, 5, true);
                config = set_bit_u8(config, 6, true);
            },
        }
        config
    }

    /// The counter.
    pub fn get_counter(&self) -> (r: u16)
        ensures
            r == self.counter,
    {
        self.counter
    }

    /// The counter's high byte.
    pub fn get_counter_hi(&self) -> (r: u8)
        ensures
            r == (self.counter >> 8u16) as u8,
    {
        (self.counter >> 8u16) as u8
    }

    /// The counter's low byte.
    pub fn get_counter_lo(&self) -> (r: u8)
        ensures
            r == (self.counter & 0xff) as u8,
    {
        (self.counter & 0xff) as u8
    }

    /// The latch.
    pub fn get_latch(&self) -> (r: u16)
        ensures
            r == self.latch,
    {
        self.latch
    }

    /// Whether underflows show on a PB pin.
    pub fn is_pb_on(&self) -> (r: bool)
        ensures
            r == self.pb_on,
    {
        self.pb_on
    }

    /// The PB output level.
    pub fn get_pb_output(&self) -> (r: bool)
        ensures
            r == self.pb_output,
    {
        self.pb_output
    }

    /// Writes the control register.
    pub fn set_config(&mut self, value: u8)
        requires
            old(self).wf(),
        ensures
            final(self).wf(),
            *final(self) == configured(*old(self), value),
    {
        let prev_enabled = self.enabled;
        self.set_config_fields(value);
        self.enable(get_bit_u8(value, 0));
        if self.enabled && !prev_enabled {
            self.pb_toggle = true;
        }
        if self.pb_on {
            self.pb_output = match self.output_mode {
                OutputMode::Pulse => self.delay.has_cycle(PB_LOW1),
                OutputMode::Toggle => self.pb_toggle,
            };
        }
    }

    fn set_config_fields(&mut self, value: u8)
        requires
            old(self).wf(),
        ensures
            final(self).wf(),
            *final(self) == config_fields(*old(self), value),
    {
        self.pb_on = get_bit_u8(value, 1);
        self.output_mode = if get_bit_u8(value, 2) {
            OutputMode::Toggle
        } else {
            OutputMode::Pulse
        };
        self.run_mode = if get_bit_u8(value, 3) {
            RunMode::OneShot
        } else {
            RunMode::Continuous
        };
        if get_bit_u8(value, 4) {
            proof {
                lemma_count3_kept(self.delay.cycles);
            }
            self.delay.feed(LOAD0);
        }
        let input_mode: u8 = match self.mode {
            Mode::TimerA => if get_bit_u8(value, 5) { 1 } else { 0 },
            Mode::TimerB => (value & 0x60) >> 5u8,
        };
        self.input_mode = if input_mode == 0 {
            InputMode::SystemClock
        } else if input_mode == 1 {
            InputMode::External
        } else if input_mode == 2 {
            InputMode::TimerA
        } else {
            InputMode::TimerAWithCNT
        };
    }

    /// Writes the latch high byte; a stopped timer also schedules a load.
    pub fn set_latch_hi(&mut self, value: u8)
        requires
            old(self).wf(),
        ensures
            final(self).wf(),
            *final(self) == (Timer {
                latch: ((value as u16) << 8u16) | (old(self).latch & 0x00ff),
                delay: if old(self).enabled {
                    old(self).delay
                } else {
                    CycleCounter { cycles: old(self).delay.cycles | LOAD0, ..old(self).delay }
                },
                ..*old(self)
            }),
    {
        let result = ((value as u16) << 8u16) | (self.latch & 0x00ff);
        self.latch = result;
        if !self.enabled {
            proof {
                lemma_count3_kept(self.delay.cycles);
            }
            self.delay.feed(LOAD0);
        }
    }

    /// Writes the latch low byte.
    pub fn set_latch_lo(&mut self, value: u8)
        requires
            old(self).wf(),
        ensures
            final(self).wf(),
            *final(self) == (Timer { latch: (old(self).latch & 0xff00) | (value as u16), ..*old(self) }),
    {
        let result = (self.latch & 0xff00) | (value as u16);
        self.latch = result;
    }

    /// Emulates one cycle; returns whether the timer underflowed.
    pub fn clock(&mut self) -> (underflow: bool)
        requires
            old(self).wf(),
        ensures
            final(self).wf(),
            (*final(self), underflow) == clocked(*old(self)),
    {
        let ghost t0 = *self;
        self.count_phase();
        let ghost t1 = *self;
        let underflow = self.underflow_phase();
        let ghost t2 = *self;
        self.load_phase();
        let ghost t3 = *self;
        if self.delay.has_cycle(PB_LOW1) {
            self.pb_output = false;
        }
        let ghost t4 = *self;
        assert(t4 == phase_pb(t3));
        self.delay.clock();
        assert(*self == phase_shift(t4));
        proof {
            lemma_clocked_wf(t0);
        }
        underflow
    }

    fn count_phase(&mut self)
        requires
            old(self).wf(),
        ensures
            final(self).pipeline_ok(),
            *final(self) == phase_count(*old(self)),
    {
        if self.delay.has_cycle(COUNT3) {
            self.counter = self.counter - 1;
        }
    }

    fn underflow_phase(&mut self) -> (underflow: bool)
        requires
            old(self).pipeline_ok(),
        ensures
            final(self).pipeline_ok(),
            (*final(self), underflow) == phase_underflow(*old(self)),
    {
        if self.counter == 0 && self.delay.has_cycle(COUNT2) {
            self.pb_toggle = !self.pb_toggle;
            if self.pb_on {
                self.pb_output = match self.output_mode {
                    OutputMode::Toggle => !self.pb_output,
                    OutputMode::Pulse => {
                        self.delay.feed(PB_LOW0);
                        true
                    },
                };
            }
            self.delay.feed(LOAD1);
            if self.run_mode == RunMode::OneShot {
                self.enable(false);
                self.delay.remove(COUNT2);
            }
            true
        } else {
            false
        }
    }

    fn load_phase(&mut self)
        requires
            old(self).pipeline_ok(),
        ensures
            final(self).pipeline_ok(),
            *final(self) == phase_load(*old(self)),
    {
        if self.delay.has_cycle(LOAD1) {
            self.counter = self.latch;
            self.delay.remove(COUNT2);
        }
    }

    /// Samples the count source: the CNT pin's rising edge or timer A's underflow.
    pub fn feed_source(&mut self, timer_a_output: bool)
        requires
            old(self).wf(),
        ensures
            final(self).wf(),
            *final(self) == fed(*old(self), timer_a_output),
    {
        proof {
            lemma_count3_kept(self.delay.cycles);
        }
        match self.input_mode {
            InputMode::SystemClock => {},
            InputMode::External => {
                if self.cnt_pin.is_rising() {
                    self.delay.feed(COUNT0);
                }
            },
            InputMode::TimerA => {
                if timer_a_output {
                    self.delay.feed(COUNT1);
                }
            },
            InputMode::TimerAWithCNT => {
                if timer_a_output && self.cnt_pin.is_rising() {
                    self.delay.feed(COUNT0);
                }
            },
        }
    }

    /// Back to a stopped one-shot system-clock timer with the latch at all ones.
    pub fn reset(&mut self)
        requires
            old(self).wf(),
        ensures
            final(self).wf(),
            *final(self) == (Timer {
                enabled: false,
                input_mode: InputMode::SystemClock,
                output_mode: OutputMode::Pulse,
                pb_on: false,
                run_mode: RunMode::OneShot,
                counter: 0,
                delay: CycleCounter { cycles: 0, feed: 0, ..old(self).delay },
                latch: 0xffff,
                pb_output: false,
                pb_toggle: false,
                ..*old(self)
            }),
    {
        self.enabled = false;
        self.input_mode = InputMode::SystemClock;
        self.output_mode = OutputMode::Pulse;
        self.pb_on = false;
        self.run_mode = RunMode::OneShot;
        self.counter = 0;
        self.delay.reset();
        self.latch = 0xffff;
        self.pb_output = false;
        self.pb_toggle = false;
        assert(0u16 & !1u16 == 0 && 0u16 & 8u16 == 0) by (bit_vector);
    }

    fn enable(&mut self, enabled: bool)
        requires
            old(self).pipeline_ok(),
        ensures
            final(self).pipeline_ok(),
            (final(self).delay.cycles & COUNT3 != 0) == (old(self).delay.cycles & COUNT3 != 0),
            *final(self) == enabled_timer(*old(self), enabled),
    {
        proof {
            lemma_feed_masks(self.delay.feed);
            lemma_count3_kept(self.delay.cycles);
            lemma_count3_kept(self.delay.cycles | COUNT0);
            lemma_count3_kept(self.delay.cycles & !COUNT0);
        }
        self.enabled = enabled;
        if enabled && self.input_mode == InputMode::SystemClock {
            self.delay.feed(COUNT0);
            self.delay.feed(COUNT1);
            self.delay.autofeed(COUNT0, true);
        } else {
            self.delay.remove(COUNT0);
            self.delay.remove(COUNT1);
            self.delay.autofeed(COUNT0, false);
        }
    }
}

} // verus!
