//! A joystick on a control port, as a bit mask of pressed directions and fire.

use vstd::prelude::*;
use crate::bits::{bit_of_u8, lemma_byte_bits, set_bit_u8, with_bit_u8};
use crate::text::str_eq;

verus! {

/// A joystick switch.
#[derive(Clone, Copy, PartialEq, Eq, Structural)]
pub enum Button {
    Up,
    Down,
    Left,
    Right,
    Fire,
}

/// The state bit of each switch.
pub open spec fn button_bit(b: Button) -> usize {
    match b {
        Button::Up => 0,
        Button::Down => 1,
        Button::Left => 2,
        Button::Right => 3,
        Button::Fire => 4,
    }
}

impl Button {
    /// The state bit of this switch.
    pub fn bit(&self) -> (r: usize)
        ensures
            r == button_bit(*self),
    {
        match self {
            Button::Up => 0,
            Button::Down => 1,
            Button::Left => 2,
            Button::Right => 3,
            Button::Fire => 4,
        }
    }
}

/// Where a joystick's input comes from.
#[derive(Clone, Copy, PartialEq, Eq, Structural)]
pub enum Mode {
    Disabled,
    Numpad,
    Joy0,
    Joy1,
}

/// The mode a name selects, if it names one.
pub open spec fn mode_named(mode: Seq<char>) -> Option<Mode> {
    if mode == "none"@ {
        Some(Mode::Disabled)
    } else if mode == "numpad"@ {
        Some(Mode::Numpad)
    } else if mode == "joy0"@ {
        Some(Mode::Joy0)
    } else if mode == "joy1"@ {
        Some(Mode::Joy1)
    } else {
        None
    }
}

/// The device index of each mode: 0xff none, 0xfe keypad, 0 and 1 for devices.
pub open spec fn mode_index(m: Mode) -> u8 {
    match m {
        Mode::Disabled => 0xff,
        Mode::Numpad => 0xfe,
        Mode::Joy0 => 0,
        Mode::Joy1 => 1,
    }
}

impl Mode {
    /// The mode named `mode`: "none", "numpad", "joy0" or "joy1".
    pub fn from(mode: &str) -> (r: Mode)
        requires
            mode_named(mode@) is Some,
        ensures
            mode_named(mode@) == Some(r),
    {
        if str_eq(mode, "none") {
            Mode::Disabled
        } else if str_eq(mode, "numpad") {
            Mode::Numpad
        } else if str_eq(mode, "joy0") {
            Mode::Joy0
        } else {
            Mode::Joy1
        }
    }

    /// The device index of this mode.
    pub fn index(&self) -> (r: u8)
        ensures
            r == mode_index(*self),
    {
        match self {
            Mode::Disabled => 0xff,
            Mode::Numpad => 0xfe,
            Mode::Joy0 => 0,
            Mode::Joy1 => 1,
        }
    }
}

/// The state after an axis reading: past the threshold one way or the other
/// presses that direction and releases the opposite; within it releases both.
pub open spec fn axis_state(state: u8, axis_idx: u8, value: i16, threshold: i16) -> u8 {
    if axis_idx == 0 {
        if value < -threshold {
            with_bit_u8(with_bit_u8(state, 2, true), 3, false)
        } else if value > threshold {
            with_bit_u8(with_bit_u8(state, 2, false), 3, true)
        } else {
            with_bit_u8(with_bit_u8(state, 2, false), 3, false)
        }
    } else {
        if value < -threshold {
            with_bit_u8(with_bit_u8(state, 0, false), 1, true)
        } else if value > threshold {
            with_bit_u8(with_bit_u8(state, 0, true), 1, false)
        } else {
            with_bit_u8(with_bit_u8(state, 0, false), 1, false)
        }
    }
}

/// A joystick: its mode, the analog dead zone, and the switch bits (1 = pressed).
pub struct Joystick {
    pub mode: Mode,
    pub threshold: i16,
    pub state: u8,
}

impl Joystick {
    /// A joystick with the given mode, dead zone and switch state.
    pub fn new(mode: Mode, threshold: i16, state: u8) -> (r: Joystick)
        ensures
            r == (Joystick { mode, threshold, state }),
    {
        Joystick { mode, threshold, state }
    }

    /// The device index.
    pub fn get_index(&self) -> (r: u8)
        ensures
            r == mode_index(self.mode),
    {
        self.mode.index()
    }

    /// Whether the joystick is driven from the numeric keypad.
    pub fn is_virtual(&self) -> (r: bool)
        ensures
            r == (self.mode == Mode::Numpad),
    {
        self.mode == Mode::Numpad
    }

    /// Releases every switch.
    pub fn reset(&mut self)
        ensures
            *final(self) == (Joystick { state: 0, ..*old(self) }),
    {
        self.state = 0;
    }

    fn set_state(&mut self, bit: usize, value: bool)
        requires
            bit < 8,
        ensures
            *final(self) == (Joystick { state: with_bit_u8(old(self).state, bit as u8, value), ..*old(self) }),
    {
        self.state = set_bit_u8(self.state, bit, value);
    }

    /// Handles an analog axis reading: axis 0 is left/right, axis 1 is down/up.
    pub fn on_axis_motion(&mut self, axis_idx: u8, value: i16)
        requires
            axis_idx < 2,
            old(self).threshold > i16::MIN,
        ensures
            *final(self) == (Joystick {
                state: axis_state(old(self).state, axis_idx, value, old(self).threshold),
                ..*old(self)
            }),
    {
        let t = self.threshold;
        if axis_idx == 0 {
            if value < -t {
                self.set_state(Button::Left.bit(), true);
                self.set_state(Button::Right.bit(), false);
            } else if value > t {
                self.set_state(Button::Left.bit(), false);
                self.set_state(Button::Right.bit(), true);
            } else {
                self.set_state(Button::Left.bit(), false);
                self.set_state(Button::Right.bit(), false);
            }
        } else {
            if value < -t {
                self.set_state(Button::Up.bit(), false);
                self.set_state(Button::Down.bit(), true);
            } else if value > t {
                self.set_state(Button::Up.bit(), true);
                self.set_state(Button::Down.bit(), false);
            } else {
                self.set_state(Button::Up.bit(), false);
                self.set_state(Button::Down.bit(), false);
            }
        }
    }

    /// Any button press is fire.
    pub fn on_button_down(&mut self, _button_idx: u8)
        ensures
            *final(self) == (Joystick { state: with_bit_u8(old(self).state, 4, true), ..*old(self) }),
    {
        self.set_state(Button::Fire.bit(), true);
    }

    /// Any button release releases fire.
    pub fn on_button_up(&mut self, _button_idx: u8)
        ensures
            *final(self) == (Joystick { state: with_bit_u8(old(self).state, 4, false), ..*old(self) }),
    {
        self.set_state(Button::Fire.bit(), false);
    }

    /// A keypad key presses its switch.
    pub fn on_key_down(&mut self, keycode: Button)
        ensures
            *final(self) == (Joystick {
                state: with_bit_u8(old(self).state, button_bit(keycode) as u8, true),
                ..*old(self)
            }),
    {
        self.set_state(keycode.bit(), true);
    }

    /// A keypad key releases its switch.
    pub fn on_key_up(&mut self, keycode: Button)
        ensures
            *final(self) == (Joystick {
                state: with_bit_u8(old(self).state, button_bit(keycode) as u8, false),
                ..*old(self)
            }),
    {
        self.set_state(keycode.bit(), false);
    }
}


/// The analog dead zone a configured joystick gets.
pub const DEFAULT_THRESHOLD: i16 = 3200;

/// The joystick a port gets for its configured mode: none when the port is
/// disabled, else one in that mode with the default dead zone, released.
pub fn configured_joystick(mode: Mode) -> (r: Option<Joystick>)
    ensures
        mode == Mode::Disabled ==> r is None,
        mode != Mode::Disabled ==> r == Some(Joystick { mode, threshold: DEFAULT_THRESHOLD, state: 0 }),
{
    if mode != Mode::Disabled {
        Some(Joystick::new(mode, DEFAULT_THRESHOLD, 0))
    } else {
        None
    }
}


/// A stick reading moves only its own axis. On axis 0 a reading right of the
/// dead zone presses Right (bit 3) and releases Left (bit 2), one left of it
/// presses Left and releases Right, and one inside releases both; on axis 1
/// a reading above presses Up (bit 0) and releases Down (bit 1), one below
/// presses Down and releases Up, one inside releases both. Every other
/// switch keeps its state. (The dead zone is taken as not negative: a
/// negative one would make "right of it" and "left of it" overlap.)
pub proof fn law_axis_motion(state: u8, axis_idx: u8, value: i16, threshold: i16, other: u8)
    requires
        axis_idx < 2,
        threshold >= 0,
        other < 8,
    ensures
        axis_idx == 0 && value > threshold ==> bit_of_u8(axis_state(state, axis_idx, value, threshold), 3)
            && !bit_of_u8(axis_state(state, axis_idx, value, threshold), 2),
        axis_idx == 0 && value < -threshold ==> bit_of_u8(axis_state(state, axis_idx, value, threshold), 2)
            && !bit_of_u8(axis_state(state, axis_idx, value, threshold), 3),
        axis_idx == 0 && -threshold <= value <= threshold ==> !bit_of_u8(
            axis_state(state, axis_idx, value, threshold),
            2,
        ) && !bit_of_u8(axis_state(state, axis_idx, value, threshold), 3),
        axis_idx == 1 && value > threshold ==> bit_of_u8(axis_state(state, axis_idx, value, threshold), 0)
            && !bit_of_u8(axis_state(state, axis_idx, value, threshold), 1),
        axis_idx == 1 && value < -threshold ==> bit_of_u8(axis_state(state, axis_idx, value, threshold), 1)
            && !bit_of_u8(axis_state(state, axis_idx, value, threshold), 0),
        axis_idx == 1 && -threshold <= value <= threshold ==> !bit_of_u8(
            axis_state(state, axis_idx, value, threshold),
            0,
        ) && !bit_of_u8(axis_state(state, axis_idx, value, threshold), 1),
        axis_idx == 0 && other != 2 && other != 3 ==> bit_of_u8(
            axis_state(state, axis_idx, value, threshold),
            other,
        ) == bit_of_u8(state, other),
        axis_idx == 1 && other != 0 && other != 1 ==> bit_of_u8(
            axis_state(state, axis_idx, value, threshold),
            other,
        ) == bit_of_u8(state, other),
{
    let (lo, hi): (u8, u8) = if axis_idx == 0 { (2, 3) } else { (0, 1) };
    let first_on: bool = if axis_idx == 0 {
        value < -threshold
    } else {
        !(value < -threshold) && value > threshold
    };
    let second_on: bool = if axis_idx == 0 {
        !(value < -threshold) && value > threshold
    } else {
        value < -threshold
    };
    let s1 = with_bit_u8(state, lo, first_on);
    lemma_byte_bits(state, lo, first_on, hi, 0, 0);
    lemma_byte_bits(state, lo, first_on, other, 0, 0);
    lemma_byte_bits(s1, hi, second_on, lo, 0, 0);
    lemma_byte_bits(s1, hi, second_on, other, 0, 0);
    assert(axis_state(state, axis_idx, value, threshold) == with_bit_u8(s1, hi, second_on));
}

} // verus!
