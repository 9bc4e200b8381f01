//! The mathematical model of the processor: its state as plain values, the
//! condition-code formulas, operand resolution, and the effect of one
//! instruction and of a whole run.
use vstd::prelude::*;
use crate::flags::{C_FLAG, N_FLAG, V_FLAG, Z_FLAG};
use crate::mode::{AddressingMode, CpuError};

verus! {

/// Number of bytes of memory: the whole 16-bit address space.
pub const MEMORY_SIZE: usize = 0x10000;

/// Address at which programs are loaded and execution starts.
pub const PROGRAM_ORIGIN: u16 = 0xE000;

/// Opcode of LDA with an immediate operand.
pub const OP_LDA_IMM: u8 = 0x86;

/// Opcode of LDA with a direct operand.
pub const OP_LDA_DIR: u8 = 0x96;

/// Opcode of ADD with an immediate operand.
pub const OP_ADD_IMM: u8 = 0x8B;

/// Opcode of ADD with a direct operand.
pub const OP_ADD_DIR: u8 = 0x9B;

/// Halt opcode.
pub const OP_HALT: u8 = 0x00;

/// Second halt opcode.
pub const OP_HALT_ALT: u8 = 0x3E;

/// The processor state as plain values.
pub struct CpuView {
    pub register_a: u8,
    pub index_x: u16,
    pub status: u8,
    pub program_counter: u16,
    pub memory: Seq<u8>,
}

impl CpuView {
    /// The memory covers the whole address space.
    pub open spec fn wf(self) -> bool {
        self.memory.len() == MEMORY_SIZE
    }

    /// The byte at `addr`.
    pub open spec fn read(self, addr: u16) -> u8 {
        self.memory[addr as int]
    }

    /// The big-endian word at `addr` and `addr + 1`.
    pub open spec fn read16(self, addr: u16) -> u16 {
        (self.read(addr) as int * 256 + self.read((addr + 1) as u16) as int) as u16
    }

    /// The same state with another program counter.
    pub open spec fn with_pc(self, pc: u16) -> CpuView {
        CpuView { program_counter: pc, ..self }
    }
}

/// `status` with the bits of `mask` set when `on` holds, cleared otherwise.
pub open spec fn set_flag(status: u8, mask: u8, on: bool) -> u8 {
    if on {
        status | mask
    } else {
        status & !mask
    }
}

/// The sum of two bytes modulo 256.
pub open spec fn wrapping_sum(a: u8, m: u8) -> u8 {
    ((a + m) % 256) as u8
}

/// Carry out of bit 7 when `a + m` gives `r`.
pub open spec fn carry_out(a: u8, m: u8, r: u8) -> bool {
    ((a & m) | (m & !r) | (!r & a)) & 0x80 != 0
}

/// Signed overflow when `a + m` gives `r`.
pub open spec fn signed_overflow(a: u8, m: u8, r: u8) -> bool {
    ((m & a & !r) | (!m & !a & r)) & 0x80 != 0
}

/// `status` with Z and N recomputed from the result byte `r`.
pub open spec fn zn_status(status: u8, r: u8) -> u8 {
    set_flag(set_flag(status, Z_FLAG, r == 0), N_FLAG, r & 0x80 != 0)
}

/// The status after LDA loads `v`: Z and N from `v`, V cleared.
pub open spec fn lda_status(status: u8, v: u8) -> u8 {
    set_flag(zn_status(status, v), V_FLAG, false)
}

/// The status after ADD of `m` to an accumulator holding `a`.
pub open spec fn add_status(status: u8, a: u8, m: u8) -> u8 {
    let r = wrapping_sum(a, m);
    zn_status(set_flag(set_flag(status, C_FLAG, carry_out(a, m, r)), V_FLAG, signed_overflow(a, m, r)), r)
}

/// The operand address of `mode` in state `s`, with the program counter
/// after any extra operand byte that the mode consumes.
pub open spec fn resolve(s: CpuView, mode: AddressingMode) -> Result<(u16, u16), CpuError> {
    let pc = s.program_counter;
    match mode {
        AddressingMode::Immediate => Ok((pc, pc)),
        AddressingMode::Direct => Ok((s.read(pc) as u16, pc)),
        AddressingMode::Relative => Ok((((pc + s.read(pc)) % 0x10000) as u16, pc)),
        AddressingMode::IndexX => if pc < 0xFFFF {
            Ok((((s.index_x + s.read16(pc)) % 0x10000) as u16, (pc + 1) as u16))
        } else {
            Err(CpuError::ProgramCounterOverflow)
        },
        AddressingMode::NoneAddressing => Err(CpuError::InvalidAddressingMode),
    }
}

/// The state after LDA with `mode`, before the final operand advance.
pub open spec fn lda_spec(s: CpuView, mode: AddressingMode) -> Result<CpuView, CpuError> {
    match resolve(s, mode) {
        Ok((addr, pc)) => {
            let v = s.read(addr);
            Ok(CpuView { register_a: v, status: lda_status(s.status, v), program_counter: pc, ..s })
        },
        Err(e) => Err(e),
    }
}

/// The state after ADD with `mode`, before the final operand advance.
pub open spec fn add_spec(s: CpuView, mode: AddressingMode) -> Result<CpuView, CpuError> {
    match resolve(s, mode) {
        Ok((addr, pc)) => {
            let m = s.read(addr);
            Ok(
                CpuView {
                    register_a: wrapping_sum(s.register_a, m),
                    status: add_status(s.status, s.register_a, m),
                    program_counter: pc,
                    ..s
                },
            )
        },
        Err(e) => Err(e),
    }
}

/// Whether `op` stops a run.
pub open spec fn is_halt(op: u8) -> bool {
    op == OP_HALT || op == OP_HALT_ALT
}

/// Whether `op` is an LDA or ADD opcode of the decode table.
pub open spec fn is_operation(op: u8) -> bool {
    op == OP_LDA_IMM || op == OP_LDA_DIR || op == OP_ADD_IMM || op == OP_ADD_DIR
}

/// The effect of an LDA or ADD opcode on the state after its fetch.
pub open spec fn execute(s: CpuView, op: u8) -> Result<CpuView, CpuError> {
    if op == OP_LDA_IMM {
        lda_spec(s, AddressingMode::Immediate)
    } else if op == OP_LDA_DIR {
        lda_spec(s, AddressingMode::Direct)
    } else if op == OP_ADD_IMM {
        add_spec(s, AddressingMode::Immediate)
    } else {
        add_spec(s, AddressingMode::Direct)
    }
}

/// One fetch-decode-execute cycle: the next state, and `None` when the run
/// goes on or the way it ends.
#[verifier::opaque]
pub open spec fn step(s: CpuView) -> (CpuView, Option<Result<(), CpuError>>) {
    let pc = s.program_counter;
    if pc == 0xFFFF {
        (s, Some(Err(CpuError::ProgramCounterOverflow)))
    } else {
        let op = s.read(pc);
        let s1 = s.with_pc((pc + 1) as u16);
        if is_halt(op) {
            (s1, Some(Ok(())))
        } else if !is_operation(op) {
            (s1, Some(Err(CpuError::UnknownOpcode(op))))
        } else if s1.program_counter == 0xFFFF {
            (s1, Some(Err(CpuError::ProgramCounterOverflow)))
        } else {
            match execute(s1, op) {
                Ok(t) => (t.with_pc((t.program_counter + 1) as u16), None),
                Err(e) => (s1, Some(Err(e))),
            }
        }
    }
}

/// The final state and outcome of running from `s` until a halt or a fault.
pub open spec fn run_from(s: CpuView) -> (CpuView, Result<(), CpuError>)
    decreases 0x10000 - s.program_counter,
{
    let (t, outcome) = step(s);
    match outcome {
        Some(r) => (t, r),
        None => {
            proof {
                lemma_step_advances(s);
            }
            run_from(t)
        },
    }
}

/// `mem` with `program` written from `PROGRAM_ORIGIN` on.
pub open spec fn loaded(mem: Seq<u8>, program: Seq<u8>) -> Seq<u8> {
    Seq::new(
        mem.len(),
        |i: int|
            if PROGRAM_ORIGIN <= i < PROGRAM_ORIGIN + program.len() {
                program[i - PROGRAM_ORIGIN]
            } else {
                mem[i]
            },
    )
}

/// The state after loading `program`.
pub open spec fn load_spec(s: CpuView, program: Seq<u8>) -> CpuView {
    CpuView { memory: loaded(s.memory, program), program_counter: PROGRAM_ORIGIN, ..s }
}

/// The state after a reset: accumulator and status cleared, the program
/// counter at the origin, index register and memory kept.
pub open spec fn reset_spec(s: CpuView) -> CpuView {
    CpuView { register_a: 0, status: 0, program_counter: PROGRAM_ORIGIN, ..s }
}

/// A cycle that neither halts nor faults moves the program counter forward.
pub proof fn lemma_step_advances(s: CpuView)
    ensures
        step(s).1 is None ==> step(s).0.program_counter > s.program_counter,
{
    reveal(step);
}

/// A run is one cycle followed, unless it ended the run, by the rest.
pub proof fn lemma_run_from_unfold(s: CpuView)
    ensures
        step(s).1 is None ==> step(s).0.program_counter > s.program_counter,
        run_from(s) == (match step(s).1 {
            Some(r) => (step(s).0, r),
            None => run_from(step(s).0),
        }),
{
    lemma_step_advances(s);
}

} // verus!
