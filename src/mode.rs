use vstd::prelude::*;

verus! {

/// How an instruction finds its operand.
#[derive(Debug, Clone, Copy, PartialEq, Eq, Structural)]
pub enum AddressingMode {
    /// The operand is the byte at the program counter.
    Immediate,
    /// The byte at the program counter is a page-zero address.
    Direct,
    /// The program counter plus the byte at it, wrapping over 16 bits.
    Relative,
    /// The index register plus the big-endian word at the program counter.
    IndexX,
    /// No operand: never a valid resolution target.
    NoneAddressing,
}

/// A fatal condition that stops a run.
#[derive(Debug, Clone, Copy, PartialEq, Eq, Structural)]
pub enum CpuError {
    /// An instruction asked to resolve `AddressingMode::NoneAddressing`.
    InvalidAddressingMode,
    /// The opcode byte is not in the decode table.
    UnknownOpcode(u8),
    /// The instruction stream runs past the top of the address space.
    ProgramCounterOverflow,
}

} // verus!
