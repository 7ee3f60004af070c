//! A Commodore 64 emulator toolkit: chips, devices, loaders and debugger
//! command handling, with their behaviour stated as Verus contracts.

pub mod app;
pub mod bits;
pub mod common;
pub mod cpu;
pub mod device;
pub mod io;
pub mod loader;
pub mod text;
