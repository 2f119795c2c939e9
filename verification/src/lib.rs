//! An instruction-level emulator core for a 6502-family processor.
//!
//! The crate is split by layer: [`flag`] holds the status register and its
//! byte encoding, [`instruction`] the opcode table, [`machine`] the
//! mathematical model of the processor, [`laws`] what is proved of that
//! model, and [`cpu`] the executable processor, whose every operation is
//! proved to follow the model.

pub mod cpu;
pub mod flag;
pub mod instruction;
pub mod laws;
pub mod machine;

pub use cpu::{Cpu, Cycle, CPU};
pub use flag::Flag;
pub use instruction::{AddressingMode, Operation};
pub use machine::{Fault, State};
