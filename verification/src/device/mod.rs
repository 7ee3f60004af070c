//! Peripherals: cartridges, the datassette, joysticks and the keyboard.

pub mod cartridge;
pub mod datassette;
pub mod expansion_port;
pub mod joystick;
pub mod keyboard;
pub mod tape;

pub use self::cartridge::{Cartridge, Chip, ChipType, HwType};
pub use self::datassette::Datassette;
pub use self::expansion_port::ExpansionPort;
pub use self::joystick::Joystick;
pub use self::keyboard::{Key, KeyEvent, Keyboard};
pub use self::tape::Tape;
