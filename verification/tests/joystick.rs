use zinc64::app::io::{Event, HostKey, Io};
use zinc64::device::joystick::{Button, Joystick, Mode};

fn key_down(keycode: Option<HostKey>) -> Event {
    Event::KeyDown { keycode, lalt: false, lctrl: false, repeat: false }
}

fn ports(mode1: Mode, mode2: Mode) -> Io {
    Io::new(
        Some(Joystick::new(mode1, 3200, 0)),
        Some(Joystick::new(mode2, 3200, 0)),
    )
}

#[test]
fn keypad_keys_map_to_switches() {
    assert!(Io::map_joystick_key(HostKey::Kp2) == Some(Button::Down));
    assert!(Io::map_joystick_key(HostKey::Kp4) == Some(Button::Left));
    assert!(Io::map_joystick_key(HostKey::Kp6) == Some(Button::Right));
    assert!(Io::map_joystick_key(HostKey::Kp8) == Some(Button::Up));
    assert!(Io::map_joystick_key(HostKey::Kp5) == Some(Button::Fire));
    assert!(Io::map_joystick_key(HostKey::Other).is_none());
}

#[test]
fn keypad_key_drives_only_keypad_joystick() {
    let mut io = ports(Mode::Numpad, Mode::Joy0);
    io.handle_joystick_event(&key_down(Some(HostKey::Kp8)));
    assert_eq!(0x01, io.joystick1.as_ref().unwrap().state);
    assert_eq!(0x00, io.joystick2.as_ref().unwrap().state);
    io.handle_joystick_event(&key_down(Some(HostKey::Kp5)));
    assert_eq!(0x11, io.joystick1.as_ref().unwrap().state);
    io.handle_joystick_event(&Event::KeyUp { keycode: Some(HostKey::Kp8) });
    assert_eq!(0x10, io.joystick1.as_ref().unwrap().state);
}

#[test]
fn other_keys_change_nothing() {
    let mut io = ports(Mode::Numpad, Mode::Numpad);
    io.handle_joystick_event(&key_down(Some(HostKey::Other)));
    io.handle_joystick_event(&key_down(None));
    assert_eq!(0x00, io.joystick1.as_ref().unwrap().state);
    assert_eq!(0x00, io.joystick2.as_ref().unwrap().state);
}

#[test]
fn keypad_key_drives_both_keypad_joysticks() {
    let mut io = ports(Mode::Numpad, Mode::Numpad);
    io.handle_joystick_event(&key_down(Some(HostKey::Kp4)));
    assert_eq!(0x04, io.joystick1.as_ref().unwrap().state);
    assert_eq!(0x04, io.joystick2.as_ref().unwrap().state);
}

#[test]
fn axis_motion_goes_to_device_index() {
    let mut io = ports(Mode::Joy0, Mode::Joy1);
    io.handle_joystick_event(&Event::JoyAxisMotion { which: 1, axis_idx: 0, value: -10000 });
    assert_eq!(0x00, io.joystick1.as_ref().unwrap().state);
    assert_eq!(0x04, io.joystick2.as_ref().unwrap().state);
    io.handle_joystick_event(&Event::JoyAxisMotion { which: 1, axis_idx: 0, value: 100 });
    assert_eq!(0x00, io.joystick2.as_ref().unwrap().state);
    io.handle_joystick_event(&Event::JoyAxisMotion { which: 0, axis_idx: 1, value: 10000 });
    assert_eq!(0x01, io.joystick1.as_ref().unwrap().state);
}

#[test]
fn button_goes_to_device_index() {
    let mut io = ports(Mode::Joy0, Mode::Joy1);
    io.handle_joystick_event(&Event::JoyButtonDown { which: 0, button_idx: 3 });
    assert_eq!(0x10, io.joystick1.as_ref().unwrap().state);
    assert_eq!(0x00, io.joystick2.as_ref().unwrap().state);
    io.handle_joystick_event(&Event::JoyButtonUp { which: 0, button_idx: 3 });
    assert_eq!(0x00, io.joystick1.as_ref().unwrap().state);
    io.handle_joystick_event(&Event::JoyButtonDown { which: 7, button_idx: 0 });
    assert_eq!(0x00, io.joystick1.as_ref().unwrap().state);
    assert_eq!(0x00, io.joystick2.as_ref().unwrap().state);
}

#[test]
fn lookup_by_index_prefers_port_one() {
    let io = ports(Mode::Joy1, Mode::Joy1);
    let found = io.get_joystick(1).unwrap();
    assert!(std::ptr::eq(found, io.joystick1.as_ref().unwrap()));
    assert!(io.get_joystick(0).is_none());
}

#[test]
fn host_devices_skip_keypad_joysticks() {
    let io = ports(Mode::Numpad, Mode::Joy1);
    assert_eq!((None, Some(1)), io.host_devices());
    let io = Io::new(None, Some(Joystick::new(Mode::Joy0, 3200, 0)));
    assert_eq!((None, Some(0)), io.host_devices());
}

#[test]
fn configured_joysticks() {
    assert!(zinc64::device::joystick::configured_joystick(Mode::Disabled).is_none());
    let j = zinc64::device::joystick::configured_joystick(Mode::Joy1).unwrap();
    assert!(j.mode == Mode::Joy1);
    assert_eq!(3200, j.threshold);
    assert_eq!(0, j.state);
}
