//! Routing host input events to the joysticks: keypad keys drive the
//! keypad joysticks, device events go to the joystick with that index.

use vstd::prelude::*;
use crate::bits::with_bit_u8;
use crate::device::joystick::{axis_state, button_bit, mode_index, Button, Joystick, Mode};

verus! {

/// The host keys the front end reads: the keypad keys a keypad joystick
/// takes and the keys of the front end's hot keys; any other key is `Other`.
#[derive(Clone, Copy, PartialEq, Eq, Structural)]
pub enum HostKey {
    Kp2,
    Kp4,
    Kp6,
    Kp8,
    Kp5,
    Escape,
    Return,
    F1,
    F9,
    H,
    M,
    P,
    Q,
    W,
    Other,
}

/// A host input event, holding what the front end reads of it: the key,
/// whether left Alt or left Ctrl was held, and whether the key repeats.
#[derive(Clone, Copy, PartialEq, Eq, Structural)]
pub enum Event {
    Quit,
    KeyDown { keycode: Option<HostKey>, lalt: bool, lctrl: bool, repeat: bool },
    KeyUp { keycode: Option<HostKey> },
    JoyAxisMotion { which: u32, axis_idx: u8, value: i16 },
    JoyButtonDown { which: u32, button_idx: u8 },
    JoyButtonUp { which: u32, button_idx: u8 },
    Other,
}

/// The joystick switch a keypad key stands for.
pub open spec fn key_button(key: HostKey) -> Option<Button> {
    match key {
        HostKey::Kp2 => Some(Button::Down),
        HostKey::Kp4 => Some(Button::Left),
        HostKey::Kp6 => Some(Button::Right),
        HostKey::Kp8 => Some(Button::Up),
        HostKey::Kp5 => Some(Button::Fire),
        _ => None,
    }
}

/// Whether a slot holds a joystick driven from the keypad.
pub open spec fn slot_virtual(j: Option<Joystick>) -> bool {
    j is Some && j->0.mode == Mode::Numpad
}

/// The slot (1 or 2) that device events for `index` go to: the first whose
/// joystick has that index; 0 when neither has.
pub open spec fn target_slot(j1: Option<Joystick>, j2: Option<Joystick>, index: u8) -> int {
    if j1 is Some && mode_index(j1->0.mode) == index {
        1
    } else if j2 is Some && mode_index(j2->0.mode) == index {
        2
    } else {
        0
    }
}

/// Whether the joystick in `slot` takes `event`.
pub open spec fn receives(j1: Option<Joystick>, j2: Option<Joystick>, slot: int, event: Event) -> bool {
    let j = if slot == 1 { j1 } else { j2 };
    match event {
        Event::KeyDown { keycode, .. } => keycode is Some && key_button(keycode->0) is Some
            && slot_virtual(j),
        Event::KeyUp { keycode } => keycode is Some && key_button(keycode->0) is Some
            && slot_virtual(j),
        Event::JoyAxisMotion { which, .. } => target_slot(j1, j2, which as u8) == slot,
        Event::JoyButtonDown { which, .. } => target_slot(j1, j2, which as u8) == slot,
        Event::JoyButtonUp { which, .. } => target_slot(j1, j2, which as u8) == slot,
        _ => false,
    }
}

/// A joystick after it takes `event`.
pub open spec fn apply_event(j: Joystick, event: Event) -> Joystick {
    match event {
        Event::KeyDown { keycode, .. } => match key_button(keycode->0) {
            Some(b) => Joystick { state: with_bit_u8(j.state, button_bit(b) as u8, true), ..j },
            None => j,
        },
        Event::KeyUp { keycode } => match key_button(keycode->0) {
            Some(b) => Joystick { state: with_bit_u8(j.state, button_bit(b) as u8, false), ..j },
            None => j,
        },
        Event::JoyAxisMotion { axis_idx, value, .. } => Joystick {
            state: axis_state(j.state, axis_idx, value, j.threshold),
            ..j
        },
        Event::JoyButtonDown { .. } => Joystick { state: with_bit_u8(j.state, 4, true), ..j },
        Event::JoyButtonUp { .. } => Joystick { state: with_bit_u8(j.state, 4, false), ..j },
        _ => j,
    }
}

/// A slot after `event`: changed only if its joystick takes the event.
pub open spec fn slot_after(j1: Option<Joystick>, j2: Option<Joystick>, slot: int, event: Event) -> Option<Joystick> {
    let j = if slot == 1 { j1 } else { j2 };
    if receives(j1, j2, slot, event) {
        Some(apply_event(j->0, event))
    } else {
        j
    }
}

/// The events the joysticks can take: an axis event names axis 0 or 1 and
/// reaches a joystick whose dead zone can be negated.
pub open spec fn event_ok(j1: Option<Joystick>, j2: Option<Joystick>, event: Event) -> bool {
    match event {
        Event::JoyAxisMotion { which, axis_idx, .. } => {
            let slot = target_slot(j1, j2, which as u8);
            slot != 0 ==> {
                let j = if slot == 1 { j1->0 } else { j2->0 };
                axis_idx < 2 && j.threshold > i16::MIN
            }
        },
        _ => true,
    }
}

/// The joysticks plugged into the two control ports.
pub struct Io {
    pub joystick1: Option<Joystick>,
    pub joystick2: Option<Joystick>,
}

impl Io {
    /// Input routing for the given joysticks.
    pub fn new(joystick1: Option<Joystick>, joystick2: Option<Joystick>) -> (r: Io)
        ensures
            r.joystick1 == joystick1,
            r.joystick2 == joystick2,
    {
        Io { joystick1, joystick2 }
    }

    /// The host devices to open: the index of each joystick that is not
    /// driven from the keypad, port 1 first.
    pub fn host_devices(&self) -> (r: (Option<u8>, Option<u8>))
        ensures
            r.0 == (if self.joystick1 is Some && !slot_virtual(self.joystick1) {
                Some(mode_index(self.joystick1->0.mode))
            } else {
                None::<u8>
            }),
            r.1 == (if self.joystick2 is Some && !slot_virtual(self.joystick2) {
                Some(mode_index(self.joystick2->0.mode))
            } else {
                None::<u8>
            }),
    {
        let d1 = match &self.joystick1 {
            Some(j) => if j.is_virtual() { None } else { Some(j.get_index()) },
            None => None,
        };
        let d2 = match &self.joystick2 {
            Some(j) => if j.is_virtual() { None } else { Some(j.get_index()) },
            None => None,
        };
        (d1, d2)
    }

    /// The joystick with device index `index`, port 1 first.
    pub fn get_joystick(&self, index: u8) -> (r: Option<&Joystick>)
        ensures
            target_slot(self.joystick1, self.joystick2, index) == 0 ==> r is None,
            target_slot(self.joystick1, self.joystick2, index) == 1 ==> r == Some(&self.joystick1->0),
            target_slot(self.joystick1, self.joystick2, index) == 2 ==> r == Some(&self.joystick2->0),
    {
        if let Some(j) = &self.joystick1 {
            if j.get_index() == index {
                return Some(j);
            }
        }
        if let Some(j) = &self.joystick2 {
            if j.get_index() == index {
                return Some(j);
            }
        }
        None
    }

    /// The joystick switch a keypad key stands for.
    pub fn map_joystick_key(keycode: HostKey) -> (r: Option<Button>)
        ensures
            r == key_button(keycode),
    {
        match keycode {
            HostKey::Kp2 => Some(Button::Down),
            HostKey::Kp4 => Some(Button::Left),
            HostKey::Kp6 => Some(Button::Right),
            HostKey::Kp8 => Some(Button::Up),
            HostKey::Kp5 => Some(Button::Fire),
            _ => None,
        }
    }

    /// Hands an event to the joysticks that take it: a keypad key to every
    /// keypad joystick, a device event to the joystick with that index.
    pub fn handle_joystick_event(&mut self, event: &Event)
        requires
            event_ok(old(self).joystick1, old(self).joystick2, *event),
        ensures
            final(self).joystick1 == slot_after(old(self).joystick1, old(self).joystick2, 1, *event),
            final(self).joystick2 == slot_after(old(self).joystick1, old(self).joystick2, 2, *event),
    {
        match *event {
            Event::KeyDown { keycode: Some(key), .. } | Event::KeyUp { keycode: Some(key) } => {
                let down = matches!(*event, Event::KeyDown { .. });
                let is_virtual_1 = match &self.joystick1 {
                    Some(j) => j.is_virtual(),
                    None => false,
                };
                let is_virtual_2 = match &self.joystick2 {
                    Some(j) => j.is_virtual(),
                    None => false,
                };
                if is_virtual_1 || is_virtual_2 {
                    if let Some(button) = Io::map_joystick_key(key) {
                        if is_virtual_1 {
                            Io::press(&mut self.joystick1, button, down);
                        }
                        if is_virtual_2 {
                            Io::press(&mut self.joystick2, button, down);
                        }
                    }
                }
            },
            Event::JoyAxisMotion { which, axis_idx, value } => {
                let slot = self.slot_of(which as u8);
                if slot == 1 {
                    Io::axis(&mut self.joystick1, axis_idx, value);
                } else if slot == 2 {
                    Io::axis(&mut self.joystick2, axis_idx, value);
                }
            },
            Event::JoyButtonDown { which, button_idx } | Event::JoyButtonUp { which, button_idx } => {
                let down = matches!(*event, Event::JoyButtonDown { .. });
                let slot = self.slot_of(which as u8);
                if slot == 1 {
                    Io::fire(&mut self.joystick1, button_idx, down);
                } else if slot == 2 {
                    Io::fire(&mut self.joystick2, button_idx, down);
                }
            },
            _ => {},
        }
    }

    fn slot_of(&self, index: u8) -> (r: u8)
        ensures
            r as int == target_slot(self.joystick1, self.joystick2, index),
    {
        if let Some(j) = &self.joystick1 {
            if j.get_index() == index {
                return 1;
            }
        }
        if let Some(j) = &self.joystick2 {
            if j.get_index() == index {
                return 2;
            }
        }
        0
    }

    fn press(slot: &mut Option<Joystick>, button: Button, down: bool)
        ensures
            *final(slot) == (match *old(slot) {
                Some(j) => Some(Joystick { state: with_bit_u8(j.state, button_bit(button) as u8, down), ..j }),
                None => None,
            }),
    {
        match slot {
            Some(j) => {
                if down {
                    j.on_key_down(button);
                } else {
                    j.on_key_up(button);
                }
            },
            None => {},
        }
    }

    fn axis(slot: &mut Option<Joystick>, axis_idx: u8, value: i16)
        requires
            (*old(slot)) is Some ==> axis_idx < 2 && (*old(slot))->0.threshold > i16::MIN,
        ensures
            *final(slot) == (match *old(slot) {
                Some(j) => Some(Joystick { state: axis_state(j.state, axis_idx, value, j.threshold), ..j }),
                None => None,
            }),
    {
        match slot {
            Some(j) => j.on_axis_motion(axis_idx, value),
            None => {},
        }
    }

    fn fire(slot: &mut Option<Joystick>, button_idx: u8, down: bool)
        ensures
            *final(slot) == (match *old(slot) {
                Some(j) => Some(Joystick { state: with_bit_u8(j.state, 4, down), ..j }),
                None => None,
            }),
    {
        match slot {
            Some(j) => {
                if down {
                    j.on_button_down(button_idx);
                } else {
                    j.on_button_up(button_idx);
                }
            },
            None => {},
        }
    }
}

} // verus!
