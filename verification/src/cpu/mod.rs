//! The 6510 processor: its state model, addressing modes, instruction
//! decoding and execution.

pub mod cpu6510;
pub mod execute;
pub mod instruction;
pub mod interrupt_line;
pub mod laws;
pub mod instruction_laws;
pub mod machine;
pub mod operand;
pub mod semantics;

pub use self::cpu6510::{Cpu6510, Interrupt};
pub use self::instruction::Instruction;
pub use self::interrupt_line::InterruptLine;
pub use self::machine::{Flag, Registers};
pub use self::operand::Operand;
