//! The processor: registers, memory, and the fetch-decode-execute loop.
use vstd::prelude::*;
use crate::flags::{C_FLAG, N_FLAG, V_FLAG, Z_FLAG};
use crate::mode::{AddressingMode, CpuError};
use crate::semantics::{
    add_spec, execute, is_operation, lda_spec, lemma_run_from_unfold, load_spec, loaded, resolve,
    reset_spec, run_from, step, zn_status, CpuView, MEMORY_SIZE, OP_ADD_DIR, OP_ADD_IMM, OP_HALT,
    OP_HALT_ALT, OP_LDA_DIR, OP_LDA_IMM, PROGRAM_ORIGIN,
};

verus! {

/// Registers and memory of the processor.
pub struct CPU {
    pub register_a: u8,
    pub index_x: u16,
    pub status: u8,
    pub program_counter: u16,
    memory: Vec<u8>,
}

impl View for CPU {
    type V = CpuView;

    closed spec fn view(&self) -> CpuView {
        CpuView {
            register_a: self.register_a,
            index_x: self.index_x,
            status: self.status,
            program_counter: self.program_counter,
            memory: self.memory@,
        }
    }
}

impl CPU {
    /// The memory covers the whole address space.
    pub open spec fn wf(&self) -> bool {
        self@.wf()
    }

    /// A processor with every register and every byte of memory zero.
    pub fn new() -> (r: Self)
        ensures
            r.wf(),
            r@ == (CpuView {
                register_a: 0,
                index_x: 0,
                status: 0,
                program_counter: 0,
                memory: Seq::new(MEMORY_SIZE as nat, |i: int| 0u8),
            }),
    {
        let mut memory: Vec<u8> = Vec::new();
        while memory.len() < MEMORY_SIZE
            invariant
                memory@.len() <= MEMORY_SIZE,
                forall|i: int| 0 <= i < memory@.len() ==> memory@[i] == 0u8,
            decreases MEMORY_SIZE - memory@.len(),
        {
            memory.push(0u8);
        }
        let r = CPU { register_a: 0, index_x: 0, status: 0, program_counter: 0, memory };
        assert(r@.memory =~= Seq::new(MEMORY_SIZE as nat, |i: int| 0u8));
        r
    }

    /// The byte at `addr`.
    pub fn mem_read(&self, addr: u16) -> (r: u8)
        requires
            self.wf(),
        ensures
            r == self@.read(addr),
    {
        self.memory[addr as usize]
    }

    /// The big-endian word at `addr` and `addr + 1`.
    pub fn mem_read_u16(&self, addr: u16) -> (r: u16)
        requires
            self.wf(),
            addr < 0xFFFF,
        ensures
            r == self@.read16(addr),
    {
        let hi = self.mem_read(addr) as u16;
        let lo = self.mem_read(addr + 1) as u16;
        let r = (hi << 8) | lo;
        assert(r == hi * 256 + lo) by (bit_vector)
            requires
                r == (hi << 8) | lo,
                hi < 256,
                lo < 256,
        ;
        r
    }

    /// Stores `data` at `addr`; nothing else changes.
    pub fn mem_write(&mut self, addr: u16, data: u8)
        requires
            old(self).wf(),
        ensures
            final(self).wf(),
            final(self)@ == (CpuView { memory: old(self)@.memory.update(addr as int, data), ..old(self)@ }),
    {
        self.memory.set(addr as usize, data);
    }

    /// Clears the accumulator and the status and puts the program counter
    /// at the origin; the index register and memory are kept.
    pub fn reset(&mut self)
        requires
            old(self).wf(),
        ensures
            final(self).wf(),
            final(self)@ == reset_spec(old(self)@),
    {
        self.register_a = 0;
        self.status = 0;
        self.program_counter = PROGRAM_ORIGIN;
    }

    /// The operand address of `mode`. The program counter moves only past
    /// the extra operand byte of indexed addressing; on an error nothing
    /// changes.
    pub fn get_operand_address(&mut self, mode: &AddressingMode) -> (r: Result<u16, CpuError>)
        requires
            old(self).wf(),
        ensures
            final(self).wf(),
            match resolve(old(self)@, *mode) {
                Ok((addr, pc)) => r == Ok::<u16, CpuError>(addr) && final(self)@ == old(self)@.with_pc(pc),
                Err(e) => r == Err::<u16, CpuError>(e) && final(self)@ == old(self)@,
            },
    {
        match mode {
            AddressingMode::Immediate => Ok(self.program_counter),
            AddressingMode::Direct => Ok(self.mem_read(self.program_counter) as u16),
            AddressingMode::Relative => {
                Ok(self.program_counter.wrapping_add(self.mem_read(self.program_counter) as u16))
            },
            AddressingMode::IndexX => {
                if self.program_counter == 0xFFFF {
                    return Err(CpuError::ProgramCounterOverflow);
                }
                let offset = self.mem_read_u16(self.program_counter);
                self.program_counter += 1;
                Ok(self.index_x.wrapping_add(offset))
            },
            AddressingMode::NoneAddressing => Err(CpuError::InvalidAddressingMode),
        }
    }

    /// Sets Z when `result` is zero and N when its bit 7 is set, clearing
    /// each otherwise.
    fn update_zero_and_negative_flags(&mut self, result: u8)
        requires
            old(self).wf(),
        ensures
            final(self).wf(),
            final(self)@ == (CpuView { status: zn_status(old(self).status, result), ..old(self)@ }),
    {
        if result == 0 {
            self.status |= Z_FLAG;
        } else {
            self.status &= !Z_FLAG;
        }
        if result & 0x80 == 0 {
            self.status &= !N_FLAG;
        } else {
            self.status |= N_FLAG;
        }
    }

    /// LDA: loads the operand into the accumulator, sets Z and N from it and
    /// clears V. On an error nothing changes.
    pub fn lda(&mut self, mode: &AddressingMode) -> (r: Result<(), CpuError>)
        requires
            old(self).wf(),
        ensures
            final(self).wf(),
            match lda_spec(old(self)@, *mode) {
                Ok(t) => r == Ok::<(), CpuError>(()) && final(self)@ == t,
                Err(e) => r == Err::<(), CpuError>(e) && final(self)@ == old(self)@,
            },
    {
        let addr = match self.get_operand_address(mode) {
            Ok(a) => a,
            Err(e) => return Err(e),
        };
        let value = self.mem_read(addr);
        self.register_a = value;
        self.update_zero_and_negative_flags(self.register_a);
        self.status &= !V_FLAG;
        Ok(())
    }

    /// ADD: adds the operand to the accumulator modulo 256, with C and V from
    /// the bit-7 identities and Z and N from the sum. On an error nothing
    /// changes.
    pub fn add(&mut self, mode: &AddressingMode) -> (r: Result<(), CpuError>)
        requires
            old(self).wf(),
        ensures
            final(self).wf(),
            match add_spec(old(self)@, *mode) {
                Ok(t) => r == Ok::<(), CpuError>(()) && final(self)@ == t,
                Err(e) => r == Err::<(), CpuError>(e) && final(self)@ == old(self)@,
            },
    {
        let addr = match self.get_operand_address(mode) {
            Ok(a) => a,
            Err(e) => return Err(e),
        };
        let operand = self.mem_read(addr);
        let a = self.register_a;
        let result = a.wrapping_add(operand);
        if ((a & operand) | (operand & !result) | (!result & a)) & 0x80 == 0 {
            self.status &= !C_FLAG;
        } else {
            self.status |= C_FLAG;
        }
        if ((operand & a & !result) | (!operand & !a & result)) & 0x80 == 0 {
            self.status &= !V_FLAG;
        } else {
            self.status |= V_FLAG;
        }
        self.update_zero_and_negative_flags(result);
        self.register_a = result;
        Ok(())
    }

    /// Writes `program` into memory from the origin on and puts the program
    /// counter there; the other registers are kept.
    pub fn load(&mut self, program: Vec<u8>)
        requires
            old(self).wf(),
            PROGRAM_ORIGIN + program@.len() <= MEMORY_SIZE,
        ensures
            final(self).wf(),
            final(self)@ == load_spec(old(self)@, program@),
    {
        let ghost start = self@;
        let mut i: usize = 0;
        while i < program.len()
            invariant
                self.wf(),
                i <= program@.len(),
                PROGRAM_ORIGIN + program@.len() <= MEMORY_SIZE,
                self.register_a == start.register_a,
                self.index_x == start.index_x,
                self.status == start.status,
                self.program_counter == start.program_counter,
                start.wf(),
                forall|j: int|
                    0 <= j < MEMORY_SIZE ==> #[trigger] self.memory@[j] == if PROGRAM_ORIGIN <= j
                        < PROGRAM_ORIGIN + i {
                        program@[j - PROGRAM_ORIGIN]
                    } else {
                        start.memory[j]
                    },
            decreases program@.len() - i,
        {
            self.memory.set(PROGRAM_ORIGIN as usize + i, program[i]);
            i += 1;
        }
        self.program_counter = PROGRAM_ORIGIN;
        assert(self@.memory =~= loaded(start.memory, program@));
    }

    /// Executes an LDA or ADD opcode whose fetch is done; the final operand
    /// advance is left to the caller. On an error nothing changes.
    fn execute_operation(&mut self, opcode: u8) -> (r: Result<(), CpuError>)
        requires
            old(self).wf(),
            is_operation(opcode),
        ensures
            final(self).wf(),
            match execute(old(self)@, opcode) {
                Ok(t) => r == Ok::<(), CpuError>(()) && final(self)@ == t,
                Err(e) => r == Err::<(), CpuError>(e) && final(self)@ == old(self)@,
            },
    {
        if opcode == OP_LDA_IMM {
            self.lda(&AddressingMode::Immediate)
        } else if opcode == OP_LDA_DIR {
            self.lda(&AddressingMode::Direct)
        } else if opcode == OP_ADD_IMM {
            self.add(&AddressingMode::Immediate)
        } else {
            self.add(&AddressingMode::Direct)
        }
    }

    /// One fetch-decode-execute cycle: `None` when the run goes on, or the
    /// way it ends.
    fn cycle(&mut self) -> (r: Option<Result<(), CpuError>>)
        requires
            old(self).wf(),
        ensures
            final(self).wf(),
            (final(self)@, r) == step(old(self)@),
    {
        reveal(step);
        if self.program_counter == 0xFFFF {
            return Some(Err(CpuError::ProgramCounterOverflow));
        }
        let opcode = self.mem_read(self.program_counter);
        self.program_counter += 1;
        if opcode == OP_HALT || opcode == OP_HALT_ALT {
            return Some(Ok(()));
        }
        if !(opcode == OP_LDA_IMM || opcode == OP_LDA_DIR || opcode == OP_ADD_IMM
            || opcode == OP_ADD_DIR) {
            return Some(Err(CpuError::UnknownOpcode(opcode)));
        }
        if self.program_counter == 0xFFFF {
            return Some(Err(CpuError::ProgramCounterOverflow));
        }
        if let Err(e) = self.execute_operation(opcode) {
            return Some(Err(e));
        }
        self.program_counter += 1;
        None
    }

    /// Runs from the program counter until a halt opcode or a fatal
    /// condition.
    pub fn run(&mut self) -> (r: Result<(), CpuError>)
        requires
            old(self).wf(),
        ensures
            final(self).wf(),
            (final(self)@, r) == run_from(old(self)@),
    {
        loop
            invariant
                self.wf(),
                run_from(self@) == run_from(old(self)@),
            decreases 0x10000 - self.program_counter,
        {
            let ghost s = self@;
            let outcome = self.cycle();
            proof {
                lemma_run_from_unfold(s);
            }
            if let Some(r) = outcome {
                return r;
            }
        }
    }

    /// Loads `program` and runs it.
    pub fn load_and_run(&mut self, program: Vec<u8>) -> (r: Result<(), CpuError>)
        requires
            old(self).wf(),
            PROGRAM_ORIGIN + program@.len() <= MEMORY_SIZE,
        ensures
            final(self).wf(),
            (final(self)@, r) == run_from(load_spec(old(self)@, program@)),
    {
        self.load(program);
        self.run()
    }
}

} // verus!
