//! The C64 keyboard: an 8x8 matrix of switches, scanned through CIA 1,
//! with a queue of scripted key presses.

use vstd::prelude::*;
use crate::bits::{bit_of_u8, get_bit_u8, set_bit_u8, with_bit_u8};

verus! {

/// A key of the C64 keyboard.
#[derive(Copy, Clone, Debug, PartialEq, Eq, Structural)]
pub enum Key {
    Num0,
    Num1,
    Num2,
    Num3,
    Num4,
    Num5,
    Num6,
    Num7,
    Num8,
    Num9,
    A,
    B,
    C,
    D,
    E,
    F,
    G,
    H,
    I,
    J,
    K,
    L,
    M,
    N,
    O,
    P,
    Q,
    R,
    S,
    T,
    U,
    V,
    W,
    X,
    Y,
    Z,
    Asterisk,
    At,
    Backspace,
    Caret,
    Colon,
    Comma,
    Dollar,
    Equals,
    Minus,
    Period,
    Plus,
    Return,
    Semicolon,
    Slash,
    Space,
    CrsrDown,
    Ctrl,
    Home,
    Left,
    LGui,
    LShift,
    Pause,
    CrsrRight,
    RShift,
    F1,
    F3,
    F5,
    F7,
}

/// A key press: the key, an optional modifier held with it, and whether
/// held shift keys are released for its duration.
#[derive(Copy, Clone, Debug)]
pub struct KeyEvent {
    pub keycode: Key,
    pub modifier: Option<Key>,
    pub disable_shift: bool,
}

/// The character printed on a key, typed by it without shift (letters in
/// upper case as the C64 shows them); `None` for keys that type none.
pub open spec fn key_legend(k: Key) -> Option<char> {
    match k {
        Key::A => Some('A'),
        Key::B => Some('B'),
        Key::C => Some('C'),
        Key::D => Some('D'),
        Key::E => Some('E'),
        Key::F => Some('F'),
        Key::G => Some('G'),
        Key::H => Some('H'),
        Key::I => Some('I'),
        Key::J => Some('J'),
        Key::K => Some('K'),
        Key::L => Some('L'),
        Key::M => Some('M'),
        Key::N => Some('N'),
        Key::O => Some('O'),
        Key::P => Some('P'),
        Key::Q => Some('Q'),
        Key::R => Some('R'),
        Key::S => Some('S'),
        Key::T => Some('T'),
        Key::U => Some('U'),
        Key::V => Some('V'),
        Key::W => Some('W'),
        Key::X => Some('X'),
        Key::Y => Some('Y'),
        Key::Z => Some('Z'),
        Key::Num0 => Some('0'),
        Key::Num1 => Some('1'),
        Key::Num2 => Some('2'),
        Key::Num3 => Some('3'),
        Key::Num4 => Some('4'),
        Key::Num5 => Some('5'),
        Key::Num6 => Some('6'),
        Key::Num7 => Some('7'),
        Key::Num8 => Some('8'),
        Key::Num9 => Some('9'),
        Key::Return => Some('\n'),
        Key::Space => Some(' '),
        Key::Asterisk => Some('*'),
        Key::Plus => Some('+'),
        Key::Comma => Some(','),
        Key::Minus => Some('-'),
        Key::Period => Some('.'),
        Key::Slash => Some('/'),
        Key::Colon => Some(':'),
        Key::Semicolon => Some(';'),
        Key::Equals => Some('='),
        Key::At => Some('@'),
        Key::Caret => Some('^'),
        _ => None,
    }
}

/// The character a key types with shift held, where the keyboard prints one.
pub open spec fn shifted_legend(k: Key) -> Option<char> {
    match k {
        Key::Num1 => Some('!'),
        Key::Num2 => Some('"'),
        Key::Num3 => Some('#'),
        Key::Num4 => Some('$'),
        Key::Num5 => Some('%'),
        Key::Num6 => Some('&'),
        Key::Num7 => Some('\''),
        Key::Num8 => Some('('),
        Key::Num9 => Some(')'),
        Key::Comma => Some('<'),
        Key::Period => Some('>'),
        Key::Slash => Some('?'),
        _ => None,
    }
}

/// The key press that types character `c`, where one exists.
pub open spec fn char_event(c: char) -> Option<KeyEvent> {
    match c {
        '\n' => Some(KeyEvent { keycode: Key::Return, modifier: None, disable_shift: false }),
        ' ' => Some(KeyEvent { keycode: Key::Space, modifier: None, disable_shift: false }),
        '!' => Some(KeyEvent { keycode: Key::Num1, modifier: Some(Key::LShift), disable_shift: false }),
        '"' => Some(KeyEvent { keycode: Key::Num2, modifier: Some(Key::LShift), disable_shift: false }),
        '#' => Some(KeyEvent { keycode: Key::Num3, modifier: Some(Key::LShift), disable_shift: false }),
        '$' => Some(KeyEvent { keycode: Key::Num4, modifier: Some(Key::LShift), disable_shift: false }),
        '%' => Some(KeyEvent { keycode: Key::Num5, modifier: Some(Key::LShift), disable_shift: false }),
        '&' => Some(KeyEvent { keycode: Key::Num6, modifier: Some(Key::LShift), disable_shift: false }),
        '\'' => Some(KeyEvent { keycode: Key::Num7, modifier: Some(Key::LShift), disable_shift: false }),
        '(' => Some(KeyEvent { keycode: Key::Num8, modifier: Some(Key::LShift), disable_shift: false }),
        ')' => Some(KeyEvent { keycode: Key::Num9, modifier: Some(Key::LShift), disable_shift: false }),
        '*' => Some(KeyEvent { keycode: Key::Asterisk, modifier: None, disable_shift: false }),
        '+' => Some(KeyEvent { keycode: Key::Plus, modifier: None, disable_shift: false }),
        ',' => Some(KeyEvent { keycode: Key::Comma, modifier: None, disable_shift: false }),
        '-' => Some(KeyEvent { keycode: Key::Minus, modifier: None, disable_shift: false }),
        '.' => Some(KeyEvent { keycode: Key::Period, modifier: None, disable_shift: false }),
        '/' => Some(KeyEvent { keycode: Key::Slash, modifier: None, disable_shift: false }),
        '0' => Some(KeyEvent { keycode: Key::Num0, modifier: None, disable_shift: false }),
        '1' => Some(KeyEvent { keycode: Key::Num1, modifier: None, disable_shift: false }),
        '2' => Some(KeyEvent { keycode: Key::Num2, modifier: None, disable_shift: false }),
        '3' => Some(KeyEvent { keycode: Key::Num3, modifier: None, disable_shift: false }),
        '4' => Some(KeyEvent { keycode: Key::Num4, modifier: None, disable_shift: false }),
        '5' => Some(KeyEvent { keycode: Key::Num5, modifier: None, disable_shift: false }),
        '6' => Some(KeyEvent { keycode: Key::Num6, modifier: None, disable_shift: false }),
        '7' => Some(KeyEvent { keycode: Key::Num7, modifier: None, disable_shift: false }),
        '8' => Some(KeyEvent { keycode: Key::Num8, modifier: None, disable_shift: false }),
        '9' => Some(KeyEvent { keycode: Key::Num9, modifier: None, disable_shift: false }),
        ':' => Some(KeyEvent { keycode: Key::Colon, modifier: None, disable_shift: false }),
        ';' => Some(KeyEvent { keycode: Key::Semicolon, modifier: None, disable_shift: false }),
        '<' => Some(KeyEvent { keycode: Key::Comma, modifier: Some(Key::LShift), disable_shift: false }),
        '=' => Some(KeyEvent { keycode: Key::Equals, modifier: None, disable_shift: false }),
        '>' => Some(KeyEvent { keycode: Key::Period, modifier: Some(Key::LShift), disable_shift: false }),
        '?' => Some(KeyEvent { keycode: Key::Slash, modifier: Some(Key::LShift), disable_shift: false }),
        '@' => Some(KeyEvent { keycode: Key::At, modifier: None, disable_shift: false }),
        'A' => Some(KeyEvent { keycode: Key::A, modifier: None, disable_shift: false }),
        'B' => Some(KeyEvent { keycode: Key::B, modifier: None, disable_shift: false }),
        'C' => Some(KeyEvent { keycode: Key::C, modifier: None, disable_shift: false }),
        'D' => Some(KeyEvent { keycode: Key::D, modifier: None, disable_shift: false }),
        'E' => Some(KeyEvent { keycode: Key::E, modifier: None, disable_shift: false }),
        'F' => Some(KeyEvent { keycode: Key::F, modifier: None, disable_shift: false }),
        'G' => Some(KeyEvent { keycode: Key::G, modifier: None, disable_shift: false }),
        'H' => Some(KeyEvent { keycode: Key::H, modifier: None, disable_shift: false }),
        'I' => Some(KeyEvent { keycode: Key::I, modifier: None, disable_shift: false }),
        'J' => Some(KeyEvent { keycode: Key::J, modifier: None, disable_shift: false }),
        'K' => Some(KeyEvent { keycode: Key::K, modifier: None, disable_shift: false }),
        'L' => Some(KeyEvent { keycode: Key::L, modifier: None, disable_shift: false }),
        'M' => Some(KeyEvent { keycode: Key::M, modifier: None, disable_shift: false }),
        'N' => Some(KeyEvent { keycode: Key::N, modifier: None, disable_shift: false }),
        'O' => Some(KeyEvent { keycode: Key::O, modifier: None, disable_shift: false }),
        'P' => Some(KeyEvent { keycode: Key::P, modifier: None, disable_shift: false }),
        'Q' => Some(KeyEvent { keycode: Key::Q, modifier: None, disable_shift: false }),
        'R' => Some(KeyEvent { keycode: Key::R, modifier: None, disable_shift: false }),
        'S' => Some(KeyEvent { keycode: Key::S, modifier: None, disable_shift: false }),
        'T' => Some(KeyEvent { keycode: Key::T, modifier: None, disable_shift: false }),
        'U' => Some(KeyEvent { keycode: Key::U, modifier: None, disable_shift: false }),
        'V' => Some(KeyEvent { keycode: Key::V, modifier: None, disable_shift: false }),
        'W' => Some(KeyEvent { keycode: Key::W, modifier: None, disable_shift: false }),
        'X' => Some(KeyEvent { keycode: Key::X, modifier: None, disable_shift: false }),
        'Y' => Some(KeyEvent { keycode: Key::Y, modifier: None, disable_shift: false }),
        'Z' => Some(KeyEvent { keycode: Key::Z, modifier: None, disable_shift: false }),
        '^' => Some(KeyEvent { keycode: Key::Caret, modifier: None, disable_shift: false }),
        _ => None,
    }
}

/// The matrix position (row, column) of each key.
pub open spec fn key_position(key: Key) -> (int, int) {
    match key {
        Key::Backspace => (0, 0),
        Key::Return => (0, 1),
        Key::CrsrRight => (0, 2),
        Key::F7 => (0, 3),
        Key::F1 => (0, 4),
        Key::F3 => (0, 5),
        Key::F5 => (0, 6),
        Key::CrsrDown => (0, 7),
        Key::Num3 => (1, 0),
        Key::W => (1, 1),
        Key::A => (1, 2),
        Key::Num4 => (1, 3),
        Key::Z => (1, 4),
        Key::S => (1, 5),
        Key::E => (1, 6),
        Key::LShift => (1, 7),
        Key::Num5 => (2, 0),
        Key::R => (2, 1),
        Key::D => (2, 2),
        Key::Num6 => (2, 3),
        Key::C => (2, 4),
        Key::F => (2, 5),
        Key::T => (2, 6),
        Key::X => (2, 7),
        Key::Num7 => (3, 0),
        Key::Y => (3, 1),
        Key::G => (3, 2),
        Key::Num8 => (3, 3),
        Key::B => (3, 4),
        Key::H => (3, 5),
        Key::U => (3, 6),
        Key::V => (3, 7),
        Key::Num9 => (4, 0),
        Key::I => (4, 1),
        Key::J => (4, 2),
        Key::Num0 => (4, 3),
        Key::M => (4, 4),
        Key::K => (4, 5),
        Key::O => (4, 6),
        Key::N => (4, 7),
        Key::Plus => (5, 0),
        Key::P => (5, 1),
        Key::L => (5, 2),
        Key::Minus => (5, 3),
        Key::Period => (5, 4),
        Key::Colon => (5, 5),
        Key::At => (5, 6),
        Key::Comma => (5, 7),
        Key::Dollar => (6, 0),
        Key::Asterisk => (6, 1),
        Key::Semicolon => (6, 2),
        Key::Home => (6, 3),
        Key::RShift => (6, 4),
        Key::Equals => (6, 5),
        Key::Caret => (6, 6),
        Key::Slash => (6, 7),
        Key::Num1 => (7, 0),
        Key::Left => (7, 1),
        Key::Ctrl => (7, 2),
        Key::Num2 => (7, 3),
        Key::Space => (7, 4),
        Key::LGui => (7, 5),
        Key::Q => (7, 6),
        Key::Pause => (7, 7),
    }
}

/// The key at a matrix position (rows and columns 0 to 7).
pub open spec fn key_at(row: int, col: int) -> Key {
    if row == 0 && col == 0 {
        Key::Backspace
    } else if row == 0 && col == 1 {
        Key::Return
    } else if row == 0 && col == 2 {
        Key::CrsrRight
    } else if row == 0 && col == 3 {
        Key::F7
    } else if row == 0 && col == 4 {
        Key::F1
    } else if row == 0 && col == 5 {
        Key::F3
    } else if row == 0 && col == 6 {
        Key::F5
    } else if row == 0 && col == 7 {
        Key::CrsrDown
    } else if row == 1 && col == 0 {
        Key::Num3
    } else if row == 1 && col == 1 {
        Key::W
    } else if row == 1 && col == 2 {
        Key::A
    } else if row == 1 && col == 3 {
        Key::Num4
    } else if row == 1 && col == 4 {
        Key::Z
    } else if row == 1 && col == 5 {
        Key::S
    } else if row == 1 && col == 6 {
        Key::E
    } else if row == 1 && col == 7 {
        Key::LShift
    } else if row == 2 && col == 0 {
        Key::Num5
    } else if row == 2 && col == 1 {
        Key::R
    } else if row == 2 && col == 2 {
        Key::D
    } else if row == 2 && col == 3 {
        Key::Num6
    } else if row == 2 && col == 4 {
        Key::C
    } else if row == 2 && col == 5 {
        Key::F
    } else if row == 2 && col == 6 {
        Key::T
    } else if row == 2 && col == 7 {
        Key::X
    } else if row == 3 && col == 0 {
        Key::Num7
    } else if row == 3 && col == 1 {
        Key::Y
    } else if row == 3 && col == 2 {
        Key::G
    } else if row == 3 && col == 3 {
        Key::Num8
    } else if row == 3 && col == 4 {
        Key::B
    } else if row == 3 && col == 5 {
        Key::H
    } else if row == 3 && col == 6 {
        Key::U
    } else if row == 3 && col == 7 {
        Key::V
    } else if row == 4 && col == 0 {
        Key::Num9
    } else if row == 4 && col == 1 {
        Key::I
    } else if row == 4 && col == 2 {
        Key::J
    } else if row == 4 && col == 3 {
        Key::Num0
    } else if row == 4 && col == 4 {
        Key::M
    } else if row == 4 && col == 5 {
        Key::K
    } else if row == 4 && col == 6 {
        Key::O
    } else if row == 4 && col == 7 {
        Key::N
    } else if row == 5 && col == 0 {
        Key::Plus
    } else if row == 5 && col == 1 {
        Key::P
    } else if row == 5 && col == 2 {
        Key::L
    } else if row == 5 && col == 3 {
        Key::Minus
    } else if row == 5 && col == 4 {
        Key::Period
    } else if row == 5 && col == 5 {
        Key::Colon
    } else if row == 5 && col == 6 {
        Key::At
    } else if row == 5 && col == 7 {
        Key::Comma
    } else if row == 6 && col == 0 {
        Key::Dollar
    } else if row == 6 && col == 1 {
        Key::Asterisk
    } else if row == 6 && col == 2 {
        Key::Semicolon
    } else if row == 6 && col == 3 {
        Key::Home
    } else if row == 6 && col == 4 {
        Key::RShift
    } else if row == 6 && col == 5 {
        Key::Equals
    } else if row == 6 && col == 6 {
        Key::Caret
    } else if row == 6 && col == 7 {
        Key::Slash
    } else if row == 7 && col == 0 {
        Key::Num1
    } else if row == 7 && col == 1 {
        Key::Left
    } else if row == 7 && col == 2 {
        Key::Ctrl
    } else if row == 7 && col == 3 {
        Key::Num2
    } else if row == 7 && col == 4 {
        Key::Space
    } else if row == 7 && col == 5 {
        Key::LGui
    } else if row == 7 && col == 6 {
        Key::Q
    } else {
        Key::Pause
    }
}

/// The matrix with `key` pressed (its bit cleared) or released (its bit set).
pub open spec fn matrix_with_key(m: Seq<u8>, key: Key, pressed: bool) -> Seq<u8> {
    let (row, col) = key_position(key);
    m.update(row, with_bit_u8(m[row], col as u8, !pressed))
}

/// Whether `key` is down in the matrix.
pub open spec fn key_down(m: Seq<u8>, key: Key) -> bool {
    let (row, col) = key_position(key);
    !bit_of_u8(m[row], col as u8)
}

/// Matrix and released-shift record after `event` goes down: the key and its
/// modifier are pressed; with shift disabled, pressed shift keys are released
/// and remembered (bit 0 left, bit 1 right).
pub open spec fn pressed_state(m: Seq<u8>, ds: u8, event: KeyEvent) -> (Seq<u8>, u8) {
    let m1 = matrix_with_key(m, event.keycode, true);
    let m2 = match event.modifier {
        Some(k) => matrix_with_key(m1, k, true),
        None => m1,
    };
    if event.disable_shift {
        let (m3, ds1) = if key_down(m2, Key::LShift) {
            (matrix_with_key(m2, Key::LShift, false), with_bit_u8(ds, 0, true))
        } else {
            (m2, ds)
        };
        if key_down(m3, Key::RShift) {
            (matrix_with_key(m3, Key::RShift, false), with_bit_u8(ds1, 1, true))
        } else {
            (m3, ds1)
        }
    } else {
        (m2, ds)
    }
}

/// Matrix and released-shift record after `event` goes up: the key and its
/// modifier are released; with shift disabled, the remembered shift keys are
/// pressed again and the record is cleared.
pub open spec fn released_state(m: Seq<u8>, ds: u8, event: KeyEvent) -> (Seq<u8>, u8) {
    let m1 = matrix_with_key(m, event.keycode, false);
    let m2 = match event.modifier {
        Some(k) => matrix_with_key(m1, k, false),
        None => m1,
    };
    if event.disable_shift {
        let m3 = if bit_of_u8(ds, 0) { matrix_with_key(m2, Key::LShift, true) } else { m2 };
        let m4 = if bit_of_u8(ds, 1) { matrix_with_key(m3, Key::RShift, true) } else { m3 };
        (m4, 0)
    } else {
        (m2, ds)
    }
}

/// Every character of `s` can be typed.
pub open spec fn typeable(s: Seq<char>) -> bool {
    forall|i: int| 0 <= i < s.len() ==> (#[trigger] char_event(s[i])) is Some
}

/// The queued events that type `s`: a press and a release per character.
pub open spec fn typing_events(s: Seq<char>) -> Seq<(KeyEvent, bool)>
    decreases s.len(),
{
    if s.len() == 0 {
        Seq::empty()
    } else {
        let e = char_event(s.last()).unwrap();
        typing_events(s.drop_last()).push((e, true)).push((e, false))
    }
}

impl KeyEvent {
    /// A plain press of `keycode`.
    pub fn new(keycode: Key) -> (r: KeyEvent)
        ensures
            r == (KeyEvent { keycode, modifier: None, disable_shift: false }),
    {
        KeyEvent { keycode, modifier: None, disable_shift: false }
    }

    /// A press of `keycode` with held shift keys released.
    pub fn with_disabled_shift(keycode: Key) -> (r: KeyEvent)
        ensures
            r == (KeyEvent { keycode, modifier: None, disable_shift: true }),
    {
        KeyEvent { keycode, modifier: None, disable_shift: true }
    }

    /// A press of `keycode` together with `modifier`.
    pub fn with_mod(keycode: Key, modifier: Key) -> (r: KeyEvent)
        ensures
            r == (KeyEvent { keycode, modifier: Some(modifier), disable_shift: false }),
    {
        KeyEvent { keycode, modifier: Some(modifier), disable_shift: false }
    }
}

/// The keyboard matrix (a cleared bit is a pressed key) and the queue of
/// scripted key events.
pub struct Keyboard {
    pub matrix: [u8; 8],
    pub queue: std::collections::VecDeque<(KeyEvent, bool)>,
    pub disabled_shift: u8,
}

impl Keyboard {
    /// A keyboard with the given matrix and no queued events.
    pub fn new(matrix: [u8; 8]) -> (r: Keyboard)
        ensures
            r.matrix == matrix,
            r.queue@ == Seq::<(KeyEvent, bool)>::empty(),
            r.disabled_shift == 0,
    {
        Keyboard { matrix, queue: std::collections::VecDeque::new(), disabled_shift: 0 }
    }

    /// Matrix row `row`.
    pub fn get_row(&self, row: u8) -> (r: u8)
        requires
            row < 8,
        ensures
            r == self.matrix@[row as int],
    {
        self.matrix[row as usize]
    }

    /// Sets matrix row `row`.
    pub fn set_row(&mut self, row: u8, value: u8)
        requires
            row < 8,
        ensures
            final(self).matrix@ == old(self).matrix@.update(row as int, value),
            final(self).queue@ == old(self).queue@,
            final(self).disabled_shift == old(self).disabled_shift,
    {
        self.matrix[row as usize] = value;
    }

    /// Applies the oldest queued event, if any.
    pub fn drain_event(&mut self)
        ensures
            old(self).queue@.len() == 0 ==> final(self).matrix == old(self).matrix
                && final(self).disabled_shift == old(self).disabled_shift
                && final(self).queue@ == old(self).queue@,
            old(self).queue@.len() > 0 ==> {
                let (e, pressed) = old(self).queue@[0];
                &&& final(self).queue@ == old(self).queue@.drop_first()
                &&& (final(self).matrix@, final(self).disabled_shift) == if pressed {
                    pressed_state(old(self).matrix@, old(self).disabled_shift, e)
                } else {
                    released_state(old(self).matrix@, old(self).disabled_shift, e)
                }
            },
    {
        if let Some((key_event, pressed)) = self.queue.pop_front() {
            if pressed {
                self.on_key_down(key_event);
            } else {
                self.on_key_up(key_event);
            }
        }
    }

    /// Queues a press and a release for every character of `str`.
    pub fn enqueue(&mut self, str: &str)
        requires
            typeable(str@),
        ensures
            final(self).queue@ == old(self).queue@ + typing_events(str@),
            final(self).matrix == old(self).matrix,
            final(self).disabled_shift == old(self).disabled_shift,
    {
        let n = str.unicode_len();
        let mut i: usize = 0;
        while i < n
            invariant
                n == str@.len(),
                i <= n,
                typeable(str@),
                self.queue@ == old(self).queue@ + typing_events(str@.subrange(0, i as int)),
                self.matrix == old(self).matrix,
                self.disabled_shift == old(self).disabled_shift,
            decreases n - i,
        {
            let c = str.get_char(i);
            assert(char_event(str@[i as int]) is Some);
            let key_event = self.map_char(c);
            self.queue.push_back((key_event, true));
            self.queue.push_back((key_event, false));
            proof {
                let s1 = str@.subrange(0, i as int + 1);
                assert(s1.drop_last() =~= str@.subrange(0, i as int));
                assert(s1.last() == c);
            }
            i = i + 1;
        }
        assert(str@.subrange(0, n as int) =~= str@);
    }

    /// Whether events are queued.
    pub fn has_events(&self) -> (r: bool)
        ensures
            r == (self.queue@.len() > 0),
    {
        self.queue.len() != 0
    }

    /// Releases every key and drops the queue.
    pub fn reset(&mut self)
        ensures
            final(self).matrix@ == Seq::new(8, |_i: int| 0xffu8),
            final(self).queue@ == Seq::<(KeyEvent, bool)>::empty(),
            final(self).disabled_shift == old(self).disabled_shift,
    {
        let mut i: u8 = 0;
        while i < 8
            invariant
                i <= 8,
                self.matrix@.len() == 8,
                forall|j: int| 0 <= j < i ==> self.matrix@[j] == 0xff,
                self.disabled_shift == old(self).disabled_shift,
            decreases 8 - i,
        {
            self.set_row(i, 0xff);
            i = i + 1;
        }
        self.queue.clear();
        assert(self.matrix@ =~= Seq::new(8, |_i: int| 0xffu8));
    }

    fn is_pressed(&self, keycode: Key) -> (r: bool)
        ensures
            r == key_down(self.matrix@, keycode),
    {
        let (row, col) = self.map_keycode(keycode);
        !get_bit_u8(self.matrix[row], col)
    }

    fn set_key(&mut self, keycode: Key, enabled: bool)
        ensures
            final(self).matrix@ == matrix_with_key(old(self).matrix@, keycode, enabled),
            final(self).queue@ == old(self).queue@,
            final(self).disabled_shift == old(self).disabled_shift,
    {
        let (row, col) = self.map_keycode(keycode);
        let value = set_bit_u8(self.matrix[row], col, !enabled);
        self.matrix[row] = value;
    }

    /// Presses the keys of `event`.
    pub fn on_key_down(&mut self, event: KeyEvent)
        ensures
            (final(self).matrix@, final(self).disabled_shift)
                == pressed_state(old(self).matrix@, old(self).disabled_shift, event),
            final(self).queue@ == old(self).queue@,
    {
        self.set_key(event.keycode, true);
        if let Some(modifier) = event.modifier {
            self.set_key(modifier, true);
        }
        if event.disable_shift {
            if self.is_pressed(Key::LShift) {
                self.set_key(Key::LShift, false);
                self.disabled_shift = set_bit_u8(self.disabled_shift, 0, true);
            }
            if self.is_pressed(Key::RShift) {
                self.set_key(Key::RShift, false);
                self.disabled_shift = set_bit_u8(self.disabled_shift, 1, true);
            }
        }
    }

    /// Releases the keys of `event`.
    pub fn on_key_up(&mut self, event: KeyEvent)
        ensures
            (final(self).matrix@, final(self).disabled_shift)
                == released_state(old(self).matrix@, old(self).disabled_shift, event),
            final(self).queue@ == old(self).queue@,
    {
        self.set_key(event.keycode, false);
        if let Some(modifier) = event.modifier {
            self.set_key(modifier, false);
        }
        if event.disable_shift {
            if get_bit_u8(self.disabled_shift, 0) {
                self.set_key(Key::LShift, true);
            }
            if get_bit_u8(self.disabled_shift, 1) {
                self.set_key(Key::RShift, true);
            }
            self.disabled_shift = 0;
        }
    }

    /// The key event that types character `c`.
    pub fn map_char(&self, c: char) -> (r: KeyEvent)
        requires
            char_event(c) is Some,
        ensures
            char_event(c) == Some(r),
    {
        match c {
            '\n' => KeyEvent::new(Key::Return),
            ' ' => KeyEvent::new(Key::Space),
            '!' => KeyEvent::with_mod(Key::Num1, Key::LShift),
            '"' => KeyEvent::with_mod(Key::Num2, Key::LShift),
            '#' => KeyEvent::with_mod(Key::Num3, Key::LShift),
            '$' => KeyEvent::with_mod(Key::Num4, Key::LShift),
            '%' => KeyEvent::with_mod(Key::Num5, Key::LShift),
            '&' => KeyEvent::with_mod(Key::Num6, Key::LShift),
            '\'' => KeyEvent::with_mod(Key::Num7, Key::LShift),
            '(' => KeyEvent::with_mod(Key::Num8, Key::LShift),
            ')' => KeyEvent::with_mod(Key::Num9, Key::LShift),
            '*' => KeyEvent::new(Key::Asterisk),
            '+' => KeyEvent::new(Key::Plus),
            ',' => KeyEvent::new(Key::Comma),
            '-' => KeyEvent::new(Key::Minus),
            '.' => KeyEvent::new(Key::Period),
            '/' => KeyEvent::new(Key::Slash),
            '0' => KeyEvent::new(Key::Num0),
            '1' => KeyEvent::new(Key::Num1),
            '2' => KeyEvent::new(Key::Num2),
            '3' => KeyEvent::new(Key::Num3),
            '4' => KeyEvent::new(Key::Num4),
            '5' => KeyEvent::new(Key::Num5),
            '6' => KeyEvent::new(Key::Num6),
            '7' => KeyEvent::new(Key::Num7),
            '8' => KeyEvent::new(Key::Num8),
            '9' => KeyEvent::new(Key::Num9),
            ':' => KeyEvent::new(Key::Colon),
            ';' => KeyEvent::new(Key::Semicolon),
            '<' => KeyEvent::with_mod(Key::Comma, Key::LShift),
            '=' => KeyEvent::new(Key::Equals),
            '>' => KeyEvent::with_mod(Key::Period, Key::LShift),
            '?' => KeyEvent::with_mod(Key::Slash, Key::LShift),
            '@' => KeyEvent::new(Key::At),
            'A' => KeyEvent::new(Key::A),
            'B' => KeyEvent::new(Key::B),
            'C' => KeyEvent::new(Key::C),
            'D' => KeyEvent::new(Key::D),
            'E' => KeyEvent::new(Key::E),
            'F' => KeyEvent::new(Key::F),
            'G' => KeyEvent::new(Key::G),
            'H' => KeyEvent::new(Key::H),
            'I' => KeyEvent::new(Key::I),
            'J' => KeyEvent::new(Key::J),
            'K' => KeyEvent::new(Key::K),
            'L' => KeyEvent::new(Key::L),
            'M' => KeyEvent::new(Key::M),
            'N' => KeyEvent::new(Key::N),
            'O' => KeyEvent::new(Key::O),
            'P' => KeyEvent::new(Key::P),
            'Q' => KeyEvent::new(Key::Q),
            'R' => KeyEvent::new(Key::R),
            'S' => KeyEvent::new(Key::S),
            'T' => KeyEvent::new(Key::T),
            'U' => KeyEvent::new(Key::U),
            'V' => KeyEvent::new(Key::V),
            'W' => KeyEvent::new(Key::W),
            'X' => KeyEvent::new(Key::X),
            'Y' => KeyEvent::new(Key::Y),
            'Z' => KeyEvent::new(Key::Z),
            '^' => KeyEvent::new(Key::Caret),
            _ => KeyEvent::new(Key::Caret),
        }
    }

    /// The matrix row and column of a key.
    pub fn map_keycode(&self, keycode: Key) -> (r: (usize, usize))
        ensures
            (r.0 as int, r.1 as int) == key_position(keycode),
            r.0 < 8,
            r.1 < 8,
    {
        match keycode {
            Key::Backspace => (0, 0),
            Key::Return => (0, 1),
            Key::CrsrRight => (0, 2),
            Key::F7 => (0, 3),
            Key::F1 => (0, 4),
            Key::F3 => (0, 5),
            Key::F5 => (0, 6),
            Key::CrsrDown => (0, 7),
            Key::Num3 => (1, 0),
            Key::W => (1, 1),
            Key::A => (1, 2),
            Key::Num4 => (1, 3),
            Key::Z => (1, 4),
            Key::S => (1, 5),
            Key::E => (1, 6),
            Key::LShift => (1, 7),
            Key::Num5 => (2, 0),
            Key::R => (2, 1),
            Key::D => (2, 2),
            Key::Num6 => (2, 3),
            Key::C => (2, 4),
            Key::F => (2, 5),
            Key::T => (2, 6),
            Key::X => (2, 7),
            Key::Num7 => (3, 0),
            Key::Y => (3, 1),
            Key::G => (3, 2),
            Key::Num8 => (3, 3),
            Key::B => (3, 4),
            Key::H => (3, 5),
            Key::U => (3, 6),
            Key::V => (3, 7),
            Key::Num9 => (4, 0),
            Key::I => (4, 1),
            Key::J => (4, 2),
            Key::Num0 => (4, 3),
            Key::M => (4, 4),
            Key::K => (4, 5),
            Key::O => (4, 6),
            Key::N => (4, 7),
            Key::Plus => (5, 0),
            Key::P => (5, 1),
            Key::L => (5, 2),
            Key::Minus => (5, 3),
            Key::Period => (5, 4),
            Key::Colon => (5, 5),
            Key::At => (5, 6),
            Key::Comma => (5, 7),
            Key::Dollar => (6, 0),
            Key::Asterisk => (6, 1),
            Key::Semicolon => (6, 2),
            Key::Home => (6, 3),
            Key::RShift => (6, 4),
            Key::Equals => (6, 5),
            Key::Caret => (6, 6),
            Key::Slash => (6, 7),
            Key::Num1 => (7, 0),
            Key::Left => (7, 1),
            Key::Ctrl => (7, 2),
            Key::Num2 => (7, 3),
            Key::Space => (7, 4),
            Key::LGui => (7, 5),
            Key::Q => (7, 6),
            Key::Pause => (7, 7),
        }
    }
}

/// Every key sits in one of the eight rows and eight columns.
proof fn lemma_key_position_bounds(key: Key)
    ensures
        0 <= key_position(key).0 < 8,
        0 <= key_position(key).1 < 8,
{
}

/// Pressing a plain key that is up and releasing it again leaves the matrix
/// and the shift record as they were.
pub proof fn law_press_release(m: Seq<u8>, ds: u8, key: Key)
    requires
        m.len() == 8,
        !key_down(m, key),
    ensures
        released_state(
            pressed_state(m, ds, KeyEvent { keycode: key, modifier: None, disable_shift: false }).0,
            ds,
            KeyEvent { keycode: key, modifier: None, disable_shift: false },
        ) == (m, ds),
{
    lemma_key_position_bounds(key);
    let (row, col) = key_position(key);
    let x = m[row];
    let c = col as u8;
    assert(bit_of_u8(x, c) ==> with_bit_u8(with_bit_u8(x, c, false), c, true) == x) by (bit_vector)
        requires
            c < 8,
    ;
    let m1 = matrix_with_key(m, key, true);
    assert(matrix_with_key(m1, key, false) =~= m);
}

/// A pressed key is down and a released key is up.
pub proof fn law_key_state(m: Seq<u8>, key: Key, pressed: bool)
    requires
        m.len() == 8,
    ensures
        key_down(matrix_with_key(m, key, pressed), key) == pressed,
{
    lemma_key_position_bounds(key);
    let (row, col) = key_position(key);
    let x = m[row];
    let c = col as u8;
    assert(bit_of_u8(with_bit_u8(x, c, !pressed), c) == !pressed) by (bit_vector)
        requires
            c < 8,
    ;
}


/// Each key has its own matrix position: distinct keys never share one
/// (`key_at` reads the key back from its position).
pub proof fn law_key_position_injective(a: Key, b: Key)
    ensures
        key_at(key_position(a).0, key_position(a).1) == a,
        a != b ==> key_position(a) != key_position(b),
{
    assert(key_at(key_position(a).0, key_position(a).1) == a);
    assert(key_at(key_position(b).0, key_position(b).1) == b);
}

/// Changing one key of the matrix leaves every other key as it was.
proof fn lemma_other_key(m: Seq<u8>, a: Key, pressed: bool, b: Key)
    requires
        m.len() == 8,
        a != b,
    ensures
        key_down(matrix_with_key(m, a, pressed), b) == key_down(m, b),
        matrix_with_key(m, a, pressed).len() == 8,
{
    law_key_position_injective(a, b);
    lemma_key_position_bounds(a);
    lemma_key_position_bounds(b);
    let (ra, ca) = key_position(a);
    let (rb, cb) = key_position(b);
    if ra == rb {
        let x = m[ra];
        let c1 = ca as u8;
        let c2 = cb as u8;
        assert(bit_of_u8(with_bit_u8(x, c1, !pressed), c2) == bit_of_u8(x, c2)) by (bit_vector)
            requires
                c1 < 8,
                c2 < 8,
                c1 != c2,
        ;
    }
}

/// Changes to two different keys can be made in either order.
proof fn lemma_keys_commute(m: Seq<u8>, a: Key, pa: bool, b: Key, pb: bool)
    requires
        m.len() == 8,
        a != b,
    ensures
        matrix_with_key(matrix_with_key(m, a, pa), b, pb) == matrix_with_key(
            matrix_with_key(m, b, pb),
            a,
            pa,
        ),
{
    law_key_position_injective(a, b);
    lemma_key_position_bounds(a);
    lemma_key_position_bounds(b);
    let (ra, ca) = key_position(a);
    let (rb, cb) = key_position(b);
    if ra == rb {
        let x = m[ra];
        let c1 = ca as u8;
        let c2 = cb as u8;
        assert(with_bit_u8(with_bit_u8(x, c1, !pa), c2, !pb) == with_bit_u8(with_bit_u8(x, c2, !pb), c1, !pa))
            by (bit_vector)
            requires
                c1 < 8,
                c2 < 8,
                c1 != c2,
        ;
    }
    assert(matrix_with_key(matrix_with_key(m, a, pa), b, pb) =~= matrix_with_key(
        matrix_with_key(m, b, pb),
        a,
        pa,
    ));
}

/// Setting a key to the state it is in changes nothing; setting it twice
/// keeps only the second.
proof fn lemma_same_key(m: Seq<u8>, a: Key, p1: bool, p2: bool)
    requires
        m.len() == 8,
    ensures
        key_down(m, a) == p1 ==> matrix_with_key(m, a, p1) == m,
        matrix_with_key(matrix_with_key(m, a, p1), a, p2) == matrix_with_key(m, a, p2),
{
    lemma_key_position_bounds(a);
    let (r, c) = key_position(a);
    let x = m[r];
    let cc = c as u8;
    assert(!bit_of_u8(x, cc) == p1 ==> with_bit_u8(x, cc, !p1) == x) by (bit_vector)
        requires
            cc < 8,
    ;
    assert(with_bit_u8(with_bit_u8(x, cc, !p1), cc, !p2) == with_bit_u8(x, cc, !p2)) by (bit_vector)
        requires
            cc < 8,
    ;
    assert(key_down(m, a) == p1 ==> matrix_with_key(m, a, p1) =~= m);
    assert(matrix_with_key(matrix_with_key(m, a, p1), a, p2) =~= matrix_with_key(m, a, p2));
}

/// Pressing a key that is up with shift disabled, then releasing it, leaves
/// the matrix as it was, shift keys held before included, and forgets the
/// released shift keys again.
pub proof fn law_press_release_without_shift(m: Seq<u8>, key: Key)
    requires
        m.len() == 8,
        !key_down(m, key),
        key != Key::LShift,
        key != Key::RShift,
    ensures
        released_state(
            pressed_state(m, 0, KeyEvent { keycode: key, modifier: None, disable_shift: true }).0,
            pressed_state(m, 0, KeyEvent { keycode: key, modifier: None, disable_shift: true }).1,
            KeyEvent { keycode: key, modifier: None, disable_shift: true },
        ) == (m, 0u8),
{
    let ev = KeyEvent { keycode: key, modifier: None, disable_shift: true };
    let l = Key::LShift;
    let r = Key::RShift;
    let ld = key_down(m, l);
    let rd = key_down(m, r);
    let m1 = matrix_with_key(m, key, true);
    lemma_other_key(m, key, true, l);
    lemma_other_key(m, key, true, r);
    let m3 = if ld { matrix_with_key(m1, l, false) } else { m1 };
    lemma_other_key(m1, l, false, r);
    let m4 = if rd { matrix_with_key(m3, r, false) } else { m3 };
    let ds1: u8 = if ld { with_bit_u8(0, 0, true) } else { 0 };
    let ds2: u8 = if rd { with_bit_u8(ds1, 1, true) } else { ds1 };
    assert(pressed_state(m, 0, ev) == (m4, ds2));
    assert(bit_of_u8(ds2, 0) == ld && bit_of_u8(ds2, 1) == rd) by (bit_vector)
        requires
            ds1 == (if ld { with_bit_u8(0, 0, true) } else { 0u8 }),
            ds2 == (if rd { with_bit_u8(ds1, 1, true) } else { ds1 }),
    ;
    // releasing the key
    let n1 = matrix_with_key(m4, key, false);
    let n3 = if ld { matrix_with_key(n1, l, true) } else { n1 };
    let n4 = if rd { matrix_with_key(n3, r, true) } else { n3 };
    assert(released_state(m4, ds2, ev) == (n4, 0u8));
    // The key's release cancels its press; each released shift key is
    // pressed again, and changes to different keys commute.
    let pk = |x: Seq<u8>| matrix_with_key(x, key, true);
    let rk = |x: Seq<u8>| matrix_with_key(x, key, false);
    lemma_same_key(m, key, true, false);
    lemma_same_key(m, key, false, false);
    assert(rk(pk(m)) == m);
    if ld {
        lemma_keys_commute(pk(m), key, false, l, false);
        lemma_same_key(m, l, false, true);
        lemma_same_key(m, l, true, true);
    }
    if rd {
        lemma_keys_commute(m3, key, false, r, false);
    }
    if ld && rd {
        let ml = matrix_with_key(m, l, false);
        assert(n1 == matrix_with_key(matrix_with_key(rk(pk(m)), l, false), r, false));
        assert(n1 == matrix_with_key(ml, r, false));
        lemma_keys_commute(ml, r, false, l, true);
        lemma_same_key(m, l, false, true);
        assert(n3 == matrix_with_key(matrix_with_key(ml, l, true), r, false));
        lemma_same_key(m, l, true, true);
        assert(matrix_with_key(ml, l, true) == m);
        lemma_same_key(m, r, false, true);
        lemma_same_key(m, r, true, true);
    } else if ld {
        assert(n1 == matrix_with_key(rk(pk(m)), l, false));
        lemma_same_key(m, l, false, true);
        lemma_same_key(m, l, true, true);
    } else if rd {
        assert(n1 == matrix_with_key(rk(pk(m)), r, false));
        lemma_same_key(m, r, false, true);
        lemma_same_key(m, r, true, true);
    }
    assert(n4 == m);
}


/// Typing a character presses the key that carries it: a letter or a digit
/// presses its own key alone; any character typed without shift is that
/// key's legend, and any typed with left shift is the key's shifted legend.
pub proof fn law_char_keys(c: char)
    ensures
        ('A' <= c <= 'Z' || '0' <= c <= '9') ==> char_event(c) is Some && char_event(c)->0.modifier
            is None && !char_event(c)->0.disable_shift && key_legend(char_event(c)->0.keycode)
            == Some(c),
        char_event(c) is Some && char_event(c)->0.modifier is None ==> key_legend(
            char_event(c)->0.keycode,
        ) == Some(c),
        char_event(c) is Some && char_event(c)->0.modifier == Some(Key::LShift) ==> shifted_legend(
            char_event(c)->0.keycode,
        ) == Some(c),
        char_event(c) is Some ==> char_event(c)->0.modifier is None || char_event(c)->0.modifier
            == Some(Key::LShift),
{
}

} // verus!
