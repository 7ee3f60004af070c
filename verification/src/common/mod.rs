//! Core building blocks shared by the chips: pins, ports, interrupt lines,
//! memory banks and the traits that tie them together.

pub mod clock;
pub mod io_port;
pub mod irq_control;
pub mod irq_line;
pub mod irqline;
pub mod pin;
pub mod ram;
pub mod rom;
pub mod system_model;
pub mod tick;
pub mod traits;

pub use self::clock::Clock;
pub use self::io_port::IoPort;
pub use self::irq_control::IrqControl;
pub use self::irq_line::IrqLine;
pub use self::pin::Pin;
pub use self::ram::Ram;
pub use self::rom::Rom;
pub use self::system_model::{SidModel, SystemModel, VicModel};
pub use self::tick::{Tick, TickCounter};
pub use self::traits::{Addressable, Chip, Mmu, SoundOutput, VideoOutput};
