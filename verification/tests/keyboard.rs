use zinc64::device::{Key, KeyEvent, Keyboard};

#[test]
fn enqueue_key_event() {
    let mut keyboard = Keyboard::new([0; 8]);
    keyboard.reset();
    assert_eq!(false, keyboard.has_events());
    keyboard.enqueue("S");
    assert_eq!(true, keyboard.has_events());
}

#[test]
fn drain_key_event() {
    let mut keyboard = Keyboard::new([0; 8]);
    keyboard.reset();
    keyboard.enqueue("S");
    assert_eq!(true, keyboard.has_events());
    keyboard.drain_event();
    keyboard.drain_event();
    assert_eq!(false, keyboard.has_events());
}

#[test]
fn emulate_key_press() {
    let mut keyboard = Keyboard::new([0; 8]);
    keyboard.reset();
    keyboard.enqueue("S");
    keyboard.drain_event();
    assert_eq!(0xdf, keyboard.get_row(1));
}

#[test]
fn press_then_release_restores_matrix() {
    let mut keyboard = Keyboard::new([0; 8]);
    keyboard.reset();
    keyboard.on_key_down(KeyEvent::new(Key::A));
    assert_eq!(0xfb, keyboard.get_row(1));
    keyboard.on_key_up(KeyEvent::new(Key::A));
    for row in 0..8 {
        assert_eq!(0xff, keyboard.get_row(row));
    }
}

#[test]
fn shifted_event_presses_modifier() {
    let mut keyboard = Keyboard::new([0; 8]);
    keyboard.reset();
    keyboard.on_key_down(KeyEvent::with_mod(Key::Num1, Key::LShift));
    assert_eq!(0xfe, keyboard.get_row(7));
    assert_eq!(0x7f, keyboard.get_row(1));
    keyboard.on_key_up(KeyEvent::with_mod(Key::Num1, Key::LShift));
    assert_eq!(0xff, keyboard.get_row(7));
    assert_eq!(0xff, keyboard.get_row(1));
}

#[test]
fn typing_a_word_queues_press_and_release_per_character() {
    let mut keyboard = Keyboard::new([0; 8]);
    keyboard.reset();
    keyboard.enqueue("RUN");
    let mut count = 0;
    while keyboard.has_events() {
        keyboard.drain_event();
        count += 1;
    }
    assert_eq!(6, count);
    for row in 0..8 {
        assert_eq!(0xff, keyboard.get_row(row));
    }
}

#[test]
fn key_positions() {
    let keyboard = Keyboard::new([0xff; 8]);
    assert_eq!((1, 5), keyboard.map_keycode(Key::S));
    assert_eq!((1, 7), keyboard.map_keycode(Key::LShift));
    assert_eq!((6, 4), keyboard.map_keycode(Key::RShift));
    assert_eq!((0, 1), keyboard.map_keycode(Key::Return));
    assert!(keyboard.map_char('A').keycode == Key::A);
}

#[test]
fn disabled_shift_press_release_restores_matrix() {
    let mut keyboard = Keyboard::new([0xff; 8]);
    keyboard.on_key_down(KeyEvent::new(Key::LShift));
    let before: Vec<u8> = (0..8).map(|r| keyboard.get_row(r)).collect();
    let event = KeyEvent::with_disabled_shift(Key::S);
    keyboard.on_key_down(event);
    assert_eq!(0xff & !(1 << 5), keyboard.get_row(1));
    keyboard.on_key_up(KeyEvent::with_disabled_shift(Key::S));
    let after: Vec<u8> = (0..8).map(|r| keyboard.get_row(r)).collect();
    assert_eq!(before, after);
}
