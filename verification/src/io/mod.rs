//! The CIA 6526 complex interface adapter and its functional units.

pub mod cia;
pub mod cycle_counter;
pub mod deviceio;
pub mod expansion_port;
pub mod icr;
pub mod keyboard;
pub mod rtc;
pub mod shift_delay;
pub mod timer;

pub use self::cycle_counter::CycleCounter;
pub use self::deviceio::DeviceIo;
pub use self::expansion_port::ExpansionPortIo;
pub use self::icr::Icr;
pub use self::rtc::Rtc;
pub use self::shift_delay::ShiftDelay;
pub use self::timer::Timer;
pub use self::cia::Cia;
