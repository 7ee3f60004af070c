//! Front-end logic: character sets, the debugger's command language and
//! the options the emulator runs with.

pub mod app;
pub mod charset;
pub mod command;
pub mod debugger;
pub mod disassembler;
pub mod io;
pub mod report;
