use emu::flags::{C_FLAG, N_FLAG, V_FLAG, Z_FLAG};
use emu::semantics::{MEMORY_SIZE, PROGRAM_ORIGIN};
use emu::{AddressingMode, CpuError, CPU};

#[test]
fn lda_immediate_every_byte() {
    let mut cpu = CPU::new();
    for v in 0..=255u8 {
        cpu.status = 0xFF;
        cpu.load(vec![0x86, v, 0x3E]);
        assert_eq!(cpu.run(), Ok(()));
        assert_eq!(cpu.register_a, v);
        assert_eq!(cpu.status & Z_FLAG != 0, v == 0);
        assert_eq!(cpu.status & N_FLAG != 0, v >> 7 == 1);
        assert_eq!(cpu.status & V_FLAG, 0);
        assert_eq!(cpu.status & C_FLAG, C_FLAG);
        assert_eq!(cpu.status & 0xF0, 0xF0);
        assert_eq!(cpu.program_counter, PROGRAM_ORIGIN + 3);
    }
}

#[test]
fn add_immediate_every_pair() {
    let mut cpu = CPU::new();
    for a in 0..=255u8 {
        for m in 0..=255u8 {
            cpu.register_a = a;
            cpu.status = 0xA0;
            cpu.program_counter = 0x1000;
            cpu.mem_write(0x1000, m);
            assert_eq!(cpu.add(&AddressingMode::Immediate), Ok(()));
            let sum = a as u16 + m as u16;
            let signed = a as i8 as i16 + m as i8 as i16;
            let r = (sum % 256) as u8;
            assert_eq!(cpu.register_a, r);
            assert_eq!(cpu.status & C_FLAG != 0, sum > 255);
            assert_eq!(cpu.status & V_FLAG != 0, !(-128..=127).contains(&signed));
            assert_eq!(cpu.status & Z_FLAG != 0, r == 0);
            assert_eq!(cpu.status & N_FLAG != 0, r >= 0x80);
            assert_eq!(cpu.status & 0xF0, 0xA0);
            assert_eq!(cpu.program_counter, 0x1000);
        }
    }
}

#[test]
fn add_direct_mode() {
    let mut cpu = CPU::new();
    cpu.mem_write(0x30, 0x05);
    assert_eq!(cpu.load_and_run(vec![0x86, 0x03, 0x9B, 0x30, 0x00]), Ok(()));
    assert_eq!(cpu.register_a, 0x08);
    assert_eq!(cpu.status & 0x0F, 0);
    assert_eq!(cpu.program_counter, PROGRAM_ORIGIN + 5);
}

#[test]
fn lda_clears_overflow_and_keeps_carry() {
    let mut cpu = CPU::new();
    assert_eq!(cpu.load_and_run(vec![0x86, 0xAC, 0x8B, 0xAC, 0x86, 0x01, 0x3E]), Ok(()));
    assert_eq!(cpu.register_a, 0x01);
    assert_eq!(cpu.status & 0x0F, C_FLAG);
}

#[test]
fn reset_twice_equals_reset_once() {
    let mut cpu = CPU::new();
    cpu.index_x = 0x1234;
    cpu.mem_write(0x40, 0x99);
    assert_eq!(cpu.load_and_run(vec![0x86, 0x80, 0x3E]), Ok(()));
    cpu.reset();
    let once = (cpu.register_a, cpu.index_x, cpu.status, cpu.program_counter, cpu.mem_read(0x40));
    cpu.reset();
    let twice = (cpu.register_a, cpu.index_x, cpu.status, cpu.program_counter, cpu.mem_read(0x40));
    assert_eq!(once, (0, 0x1234, 0, PROGRAM_ORIGIN, 0x99));
    assert_eq!(once, twice);
    assert_eq!(cpu.mem_read(PROGRAM_ORIGIN + 1), 0x80);
}

#[test]
fn unknown_opcode_is_reported() {
    let mut cpu = CPU::new();
    assert_eq!(cpu.load_and_run(vec![0x86, 0x07, 0x01]), Err(CpuError::UnknownOpcode(0x01)));
    assert_eq!(cpu.register_a, 0x07);
    assert_eq!(cpu.program_counter, PROGRAM_ORIGIN + 3);
}

#[test]
fn none_addressing_is_reported() {
    let mut cpu = CPU::new();
    cpu.program_counter = 0x10;
    assert_eq!(cpu.lda(&AddressingMode::NoneAddressing), Err(CpuError::InvalidAddressingMode));
    assert_eq!(cpu.add(&AddressingMode::NoneAddressing), Err(CpuError::InvalidAddressingMode));
    assert_eq!(
        cpu.get_operand_address(&AddressingMode::NoneAddressing),
        Err(CpuError::InvalidAddressingMode)
    );
    assert_eq!(cpu.program_counter, 0x10);
}

#[test]
fn running_off_the_end_is_reported() {
    let mut cpu = CPU::new();
    let program = vec![0x86u8; MEMORY_SIZE - PROGRAM_ORIGIN as usize];
    assert_eq!(cpu.load_and_run(program), Err(CpuError::ProgramCounterOverflow));
    assert_eq!(cpu.program_counter, 0xFFFF);
    assert_eq!(cpu.register_a, 0x86);
}

#[test]
fn fetch_at_top_of_memory_is_reported() {
    let mut cpu = CPU::new();
    cpu.program_counter = 0xFFFF;
    assert_eq!(cpu.run(), Err(CpuError::ProgramCounterOverflow));
    assert_eq!(cpu.program_counter, 0xFFFF);
}

#[test]
fn relative_addressing_wraps() {
    let mut cpu = CPU::new();
    cpu.program_counter = 0xFFF0;
    cpu.mem_write(0xFFF0, 0x20);
    assert_eq!(cpu.get_operand_address(&AddressingMode::Relative), Ok(0x0010));
    assert_eq!(cpu.program_counter, 0xFFF0);
}

#[test]
fn indexed_addressing_reads_big_endian_word() {
    let mut cpu = CPU::new();
    cpu.index_x = 0x0100;
    cpu.program_counter = 0x2000;
    cpu.mem_write(0x2000, 0x12);
    cpu.mem_write(0x2001, 0x34);
    assert_eq!(cpu.mem_read_u16(0x2000), 0x1234);
    assert_eq!(cpu.get_operand_address(&AddressingMode::IndexX), Ok(0x1334));
    assert_eq!(cpu.program_counter, 0x2001);

    cpu.index_x = 0xFFFF;
    cpu.program_counter = 0x2000;
    assert_eq!(cpu.get_operand_address(&AddressingMode::IndexX), Ok(0x1233));

    cpu.program_counter = 0xFFFF;
    assert_eq!(
        cpu.get_operand_address(&AddressingMode::IndexX),
        Err(CpuError::ProgramCounterOverflow)
    );
    assert_eq!(cpu.program_counter, 0xFFFF);
}

#[test]
fn direct_addressing_uses_page_zero() {
    let mut cpu = CPU::new();
    cpu.program_counter = 0x3000;
    cpu.mem_write(0x3000, 0xFE);
    assert_eq!(cpu.get_operand_address(&AddressingMode::Direct), Ok(0x00FE));
    assert_eq!(cpu.get_operand_address(&AddressingMode::Immediate), Ok(0x3000));
}

#[test]
fn load_keeps_registers_and_other_memory() {
    let mut cpu = CPU::new();
    cpu.register_a = 0x42;
    cpu.status = 0x10;
    cpu.mem_write(0x20, 0x0A);
    cpu.mem_write(PROGRAM_ORIGIN + 2, 0x77);
    cpu.load(vec![0x96, 0x20]);
    assert_eq!(cpu.register_a, 0x42);
    assert_eq!(cpu.status, 0x10);
    assert_eq!(cpu.program_counter, PROGRAM_ORIGIN);
    assert_eq!(cpu.mem_read(PROGRAM_ORIGIN), 0x96);
    assert_eq!(cpu.mem_read(PROGRAM_ORIGIN + 1), 0x20);
    assert_eq!(cpu.mem_read(PROGRAM_ORIGIN + 2), 0x77);
    assert_eq!(cpu.mem_read(0x20), 0x0A);
}

#[test]
fn new_cpu_is_zeroed() {
    let cpu = CPU::new();
    assert_eq!((cpu.register_a, cpu.index_x, cpu.status, cpu.program_counter), (0, 0, 0, 0));
    assert_eq!(cpu.mem_read(0), 0);
    assert_eq!(cpu.mem_read(0xFFFF), 0);
}

#[test]
fn zero_opcode_halts() {
    let mut cpu = CPU::new();
    assert_eq!(cpu.load_and_run(vec![0x00, 0x86, 0x05]), Ok(()));
    assert_eq!(cpu.register_a, 0);
    assert_eq!(cpu.program_counter, PROGRAM_ORIGIN + 1);
}
