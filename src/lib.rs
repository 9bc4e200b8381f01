//! Instruction-execution core of a small 8-bit microcontroller emulator in the
//! style of the 68HC11: accumulator load and add, addressing modes and the
//! condition-code register.
pub mod flags;
pub mod mode;
pub mod semantics;
pub mod cpu;
pub mod lemmas;

pub use mode::{AddressingMode, CpuError};
pub use cpu::CPU;
