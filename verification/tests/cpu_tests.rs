//! End-to-end CPU tests: each loads a small program at 0x8000 and ticks the
//! machine, checking registers, flags and memory.
use nes_core::cpu::registers::ProcessorStatusBits;
use nes_core::nes::NES;
use nes_core::program_loader::{
    load_program_absolute_indexed, load_program_absolute_indexed_with_carry,
    load_program_absolute_store, load_program_adc, load_program_and, load_program_asl,
    load_program_bcc, load_program_bit, load_program_cmp, load_program_cpx,
    load_program_index_increment, load_program_jmp_absolute, load_program_jmp_indirect,
    load_program_jsr, load_program_lda, load_program_stack,
    load_program_zeropage_store_load_and_memory_increment, load_program_zeropage_x,
};

fn initialize(f: fn(&mut Vec<u8>) -> u8) -> NES {
    let mut rom_memory: Vec<u8> = vec![0; 1024 * 32];
    f(&mut rom_memory); // call f - load program
    let mut nes = NES::new_custom_prg_rom(rom_memory);
    nes.cpu.registers.PC = 0x8000;
    nes
}

// NOTE: For each program, the last cpu tick is NOP, except for branch
// instructions, the last instruction in those is the stored instruction in
// memory.

#[test]
fn test_stack() {
    let nes = initialize(load_program_stack);
    let mut cpu = nes.cpu;

    cpu.clock_tick().unwrap();
    assert_eq!(cpu.registers.A, 0x8C);
    cpu.clock_tick().unwrap();
    assert_eq!(cpu.read_memory(0x1FF), 0x8C);
    cpu.clock_tick().unwrap();
    assert_eq!(cpu.registers.A, 0xAB);
    cpu.clock_tick().unwrap();
    assert_eq!(cpu.read_memory(0x1FE), 0xAB);
    cpu.clock_tick().unwrap();
    assert_eq!(cpu.registers.A, 0xAB);
    cpu.clock_tick().unwrap();
    assert_eq!(cpu.registers.A, 0x8C);
    assert_eq!(cpu.registers.S, 0xFF);
    cpu.clock_tick().unwrap();
    assert_eq!(cpu.registers.S, 0x00);
    cpu.clock_tick().unwrap();
}

#[test]
fn test_lda() {
    let nes = initialize(load_program_lda);
    let mut cpu = nes.cpu;

    cpu.clock_tick().unwrap();
    assert_eq!(cpu.registers.A, 0xFF);
    assert_eq!(cpu.registers.P.get(ProcessorStatusBits::NEGATIVE), true);
    cpu.clock_tick().unwrap();
    assert_eq!(cpu.registers.P.get(ProcessorStatusBits::ZERO), true);
    cpu.clock_tick().unwrap();
}

#[test]
fn test_adc() {
    let nes = initialize(load_program_adc);
    let mut cpu = nes.cpu;

    cpu.clock_tick().unwrap();
    assert_eq!(cpu.registers.P.get(ProcessorStatusBits::DECIMAL), false);
    cpu.clock_tick().unwrap();
    assert_eq!(cpu.registers.A, 0x09);
    cpu.clock_tick().unwrap();
    assert_eq!(cpu.registers.P.get(ProcessorStatusBits::CARRY), false);
    cpu.clock_tick().unwrap();
    assert_eq!(cpu.registers.A, 0x0B);

    cpu.clock_tick().unwrap();
    assert_eq!(cpu.registers.P.get(ProcessorStatusBits::DECIMAL), true);
    cpu.clock_tick().unwrap();
    cpu.clock_tick().unwrap();
    cpu.clock_tick().unwrap();
    assert_eq!(cpu.registers.A, 0x11);

    cpu.clock_tick().unwrap();
    assert_eq!(cpu.registers.P.get(ProcessorStatusBits::DECIMAL), false);
    assert_eq!(cpu.registers.P.get(ProcessorStatusBits::CARRY), false);
    cpu.clock_tick().unwrap();
    cpu.clock_tick().unwrap();
    assert_eq!(cpu.registers.P.get(ProcessorStatusBits::CARRY), true);
    assert_eq!(cpu.registers.A, 0x80);

    cpu.clock_tick().unwrap();
    assert_eq!(cpu.registers.P.get(ProcessorStatusBits::CARRY), false);
    cpu.clock_tick().unwrap();
    cpu.clock_tick().unwrap();
    assert_eq!(cpu.registers.P.get(ProcessorStatusBits::OVERFLOW), true);
    assert_eq!(cpu.registers.P.get(ProcessorStatusBits::CARRY), true);
    assert_eq!(cpu.registers.A, 0x7F);

    cpu.clock_tick().unwrap();
    assert_eq!(cpu.registers.P.get(ProcessorStatusBits::OVERFLOW), false);
    cpu.clock_tick().unwrap();
    cpu.clock_tick().unwrap();
    cpu.clock_tick().unwrap();
    assert_eq!(cpu.registers.P.get(ProcessorStatusBits::OVERFLOW), true);
    assert_eq!(cpu.registers.P.get(ProcessorStatusBits::NEGATIVE), true);
    assert_eq!(cpu.registers.P.get(ProcessorStatusBits::CARRY), false);
    assert_eq!(cpu.registers.A, 0x80);

    cpu.clock_tick().unwrap();
}

#[test]
fn test_absolute_store() {
    let nes = initialize(load_program_absolute_store);
    let mut cpu = nes.cpu;

    cpu.clock_tick().unwrap();
    cpu.clock_tick().unwrap();
    cpu.clock_tick().unwrap();

    assert_eq!(cpu.read_memory(0x2000), 0);
    cpu.clock_tick().unwrap();
    assert_eq!(cpu.read_memory(0x2000), 0xAB);

    assert_eq!(cpu.read_memory(0x2001), 0);
    cpu.clock_tick().unwrap();
    assert_eq!(cpu.read_memory(0x2001), 0xAB);
}

#[test]
fn test_index_increment() {
    let nes = initialize(load_program_index_increment);
    let mut cpu = nes.cpu;

    cpu.clock_tick().unwrap();
    assert_eq!(cpu.registers.X, 0xFE);
    assert_eq!(cpu.registers.P.get(ProcessorStatusBits::NEGATIVE), true);
    cpu.clock_tick().unwrap();
    assert_eq!(cpu.registers.X, 0xFF);
    assert_eq!(cpu.registers.P.get(ProcessorStatusBits::NEGATIVE), true);
    cpu.clock_tick().unwrap();
    assert_eq!(cpu.registers.X, 0x00);
    assert_eq!(cpu.registers.P.get(ProcessorStatusBits::NEGATIVE), false);
    assert_eq!(cpu.registers.P.get(ProcessorStatusBits::ZERO), true);

    cpu.clock_tick().unwrap();
}

#[test]
fn test_zeropage_store_load_and_memory_increment() {
    let nes = initialize(load_program_zeropage_store_load_and_memory_increment);
    let mut cpu = nes.cpu;

    cpu.clock_tick().unwrap();
    assert_eq!(cpu.registers.X, 0xFE);

    cpu.clock_tick().unwrap();
    assert_eq!(cpu.read_memory(0x0A), 0xFE);

    cpu.clock_tick().unwrap();
    assert_eq!(cpu.read_memory(0x0A), 0xFF);
    assert_eq!(cpu.registers.P.get(ProcessorStatusBits::ZERO), false);
    cpu.clock_tick().unwrap();
    assert_eq!(cpu.registers.P.get(ProcessorStatusBits::ZERO), true);
    assert_eq!(cpu.read_memory(0x0A), 0x00);

    cpu.clock_tick().unwrap();
}

#[test]
fn test_zeropage_x() {
    let nes = initialize(load_program_zeropage_x);
    let mut cpu = nes.cpu;

    cpu.clock_tick().unwrap();
    cpu.clock_tick().unwrap();
    cpu.clock_tick().unwrap();

    cpu.clock_tick().unwrap();
    cpu.clock_tick().unwrap();
    assert_eq!(cpu.read_memory(0x0A), 0xFE);
    assert_ne!(cpu.registers.A, 0xFE);
    cpu.clock_tick().unwrap();
    assert_eq!(cpu.registers.A, 0xFE);

    cpu.clock_tick().unwrap();
    assert_eq!(cpu.registers.X, 0x0B);
    cpu.clock_tick().unwrap();
    assert_eq!(cpu.registers.A, 0xFC);
    assert_eq!(cpu.registers.P.get(ProcessorStatusBits::CARRY), true);

    cpu.clock_tick().unwrap();
}

#[test]
fn test_absolute_indexed() {
    let nes = initialize(load_program_absolute_indexed);
    let mut cpu = nes.cpu;

    cpu.clock_tick().unwrap();
    cpu.clock_tick().unwrap();
    assert_eq!(cpu.read_memory(0x2000), 0x0A);
    cpu.clock_tick().unwrap();
    cpu.clock_tick().unwrap();
    assert_eq!(cpu.registers.Y, 0x0A);

    cpu.clock_tick().unwrap();
    cpu.clock_tick().unwrap();
    cpu.clock_tick().unwrap();
    assert_eq!(cpu.registers.A, 0x0A);

    cpu.clock_tick().unwrap();
}

#[test]
fn test_jmp_absolute() {
    let nes = initialize(load_program_jmp_absolute);
    let mut cpu = nes.cpu;

    cpu.clock_tick().unwrap();
    cpu.clock_tick().unwrap();
    // Instruction SED (0xF8) is stored in memory location 0x0001. It's 1 byte
    // long instruction.
    assert_eq!(cpu.read_memory(0x0001), 0xF8);

    assert_ne!(cpu.registers.PC, 0x0001);
    cpu.clock_tick().unwrap();
    assert_eq!(cpu.registers.PC, 0x0001); // PC is at 0x0001

    assert_eq!(cpu.registers.P.get(ProcessorStatusBits::DECIMAL), false);
    // Execute instruction stored in 0x0001
    cpu.clock_tick().unwrap();
    assert_eq!(cpu.registers.P.get(ProcessorStatusBits::DECIMAL), true);
}

#[test]
fn test_jmp_indirect() {
    let nes = initialize(load_program_jmp_indirect);
    let mut cpu = nes.cpu;

    cpu.clock_tick().unwrap();
    cpu.clock_tick().unwrap();
    assert_eq!(cpu.read_memory(0x00AB), 0x05);

    cpu.clock_tick().unwrap();
    cpu.clock_tick().unwrap();
    assert_eq!(cpu.read_memory(0x00AC), 0xFF);

    cpu.clock_tick().unwrap();
    assert_eq!(cpu.registers.PC, 0xFF05);
}

#[test]
fn test_cmp() {
    let nes = initialize(load_program_cmp);
    let mut cpu = nes.cpu;

    cpu.clock_tick().unwrap();

    assert_eq!(cpu.registers.P.get(ProcessorStatusBits::CARRY), false);
    cpu.clock_tick().unwrap();
    assert_eq!(cpu.registers.P.get(ProcessorStatusBits::CARRY), true);

    assert_eq!(cpu.registers.P.get(ProcessorStatusBits::ZERO), false);
    cpu.clock_tick().unwrap();
    assert_eq!(cpu.registers.P.get(ProcessorStatusBits::ZERO), true);

    cpu.clock_tick().unwrap();
    assert_eq!(cpu.registers.P.get(ProcessorStatusBits::NEGATIVE), true);
    assert_eq!(cpu.registers.P.get(ProcessorStatusBits::ZERO), false);
    assert_eq!(cpu.registers.P.get(ProcessorStatusBits::CARRY), false);

    cpu.clock_tick().unwrap(); // LDA 0xAA: N=1, Z=C=0
    cpu.clock_tick().unwrap();
    assert_eq!(cpu.registers.P.get(ProcessorStatusBits::NEGATIVE), true);
    assert_eq!(cpu.registers.P.get(ProcessorStatusBits::ZERO), false);
    assert_eq!(cpu.registers.P.get(ProcessorStatusBits::CARRY), true);

    cpu.clock_tick().unwrap(); // LDA 0x00
    cpu.clock_tick().unwrap();
    assert_eq!(cpu.registers.P.get(ProcessorStatusBits::NEGATIVE), false);
    assert_eq!(cpu.registers.P.get(ProcessorStatusBits::ZERO), false);
    assert_eq!(cpu.registers.P.get(ProcessorStatusBits::CARRY), false);

    cpu.clock_tick().unwrap();
}

#[test]
fn test_cpx() {
    // cpy is same...
    let nes = initialize(load_program_cpx);
    let mut cpu = nes.cpu;

    cpu.clock_tick().unwrap();
    cpu.clock_tick().unwrap();

    cpu.clock_tick().unwrap();
    assert_eq!(cpu.registers.P.get(ProcessorStatusBits::CARRY), false);
    assert_eq!(cpu.registers.P.get(ProcessorStatusBits::ZERO), false);
    assert_eq!(cpu.registers.P.get(ProcessorStatusBits::NEGATIVE), false);
    cpu.clock_tick().unwrap();
    assert_eq!(cpu.registers.P.get(ProcessorStatusBits::CARRY), false);
    assert_eq!(cpu.registers.P.get(ProcessorStatusBits::ZERO), false);
    assert_eq!(cpu.registers.P.get(ProcessorStatusBits::NEGATIVE), true);

    cpu.clock_tick().unwrap();
    cpu.clock_tick().unwrap();
    assert_eq!(cpu.registers.P.get(ProcessorStatusBits::CARRY), true);
    assert_eq!(cpu.registers.P.get(ProcessorStatusBits::ZERO), false);
    assert_eq!(cpu.registers.P.get(ProcessorStatusBits::NEGATIVE), true);

    cpu.clock_tick().unwrap();
    cpu.clock_tick().unwrap();
    assert_eq!(cpu.registers.P.get(ProcessorStatusBits::CARRY), true);
    assert_eq!(cpu.registers.P.get(ProcessorStatusBits::ZERO), true);
    assert_eq!(cpu.registers.P.get(ProcessorStatusBits::NEGATIVE), false);

    cpu.clock_tick().unwrap();
}

#[test]
fn test_jsr() {
    let nes = initialize(load_program_jsr);
    let mut cpu = nes.cpu;
    let pc_before = cpu.registers.PC;

    assert_ne!(cpu.registers.PC, 0x0A0B);
    cpu.clock_tick().unwrap();
    assert_eq!(cpu.registers.PC, 0x0A0B);
    assert_eq!(cpu.registers.S, 0xFD);
    let pc_after_lsb = cpu.pop_stack();
    let pc_after_msb = cpu.pop_stack();
    let pc_after = ((pc_after_msb as u16) << 8) | (pc_after_lsb as u16);
    assert_eq!(pc_after, pc_before + 2);
    assert_eq!(cpu.registers.S, 0xFF);
}

#[test]
fn test_indexed_absolute() {
    let nes = initialize(load_program_absolute_indexed_with_carry);
    let mut cpu = nes.cpu;

    cpu.clock_tick().unwrap();
    assert_eq!(cpu.registers.P.get(ProcessorStatusBits::CARRY), true);
    cpu.clock_tick().unwrap();
    cpu.clock_tick().unwrap();

    cpu.clock_tick().unwrap();
    assert_eq!(cpu.read_memory(0x20AB), 0xFF);

    cpu.clock_tick().unwrap();
}

#[test]
fn test_all_transfers() {
    let nes = initialize(nes_core::program_loader::load_program_transfers);
    let mut cpu = nes.cpu;

    assert_eq!(cpu.registers.S, 0xFF);
    cpu.clock_tick().unwrap();
    cpu.clock_tick().unwrap();
    cpu.clock_tick().unwrap();
    assert_eq!(cpu.registers.A, 0xAA);
    assert_eq!(cpu.registers.X, 0xAA);
    assert_eq!(cpu.registers.Y, 0xAA);
    cpu.clock_tick().unwrap();
    assert_ne!(cpu.registers.X, 0xAA);
    cpu.clock_tick().unwrap();
    assert_eq!(cpu.registers.A, 0x00);
    assert_eq!(cpu.registers.P.get(ProcessorStatusBits::ZERO), true);
    assert_eq!(cpu.registers.P.get(ProcessorStatusBits::NEGATIVE), false);
    cpu.clock_tick().unwrap();
    assert_ne!(cpu.registers.A, 0x00);
    cpu.clock_tick().unwrap();
    assert_eq!(cpu.registers.X, 0xBB);
    cpu.clock_tick().unwrap();
    assert_eq!(cpu.registers.S, 0xBB);
    cpu.clock_tick().unwrap();
    assert_eq!(cpu.registers.A, 0xAA);

    // Run the program without debug and see whats the final flags. Easier
    // than do it after the immediate instruction.
    assert_eq!(cpu.registers.P.get(ProcessorStatusBits::NEGATIVE), true);

    cpu.clock_tick().unwrap();
}

#[test]
fn test_and() {
    let nes = initialize(load_program_and);
    let mut cpu = nes.cpu;

    cpu.clock_tick().unwrap();
    cpu.clock_tick().unwrap();
    assert_eq!(cpu.registers.A, 0xFF);
    assert_eq!(cpu.registers.P.get(ProcessorStatusBits::NEGATIVE), true);

    cpu.clock_tick().unwrap();
    cpu.clock_tick().unwrap();
    assert_eq!(cpu.registers.A, 0x83);

    cpu.clock_tick().unwrap();
    assert_eq!(cpu.registers.A, 0x00);
    assert_eq!(cpu.registers.P.get(ProcessorStatusBits::NEGATIVE), false);
    assert_eq!(cpu.registers.P.get(ProcessorStatusBits::ZERO), true);

    cpu.clock_tick().unwrap();
}

#[test]
fn test_asl() {
    let nes = initialize(load_program_asl);
    let mut cpu = nes.cpu;

    cpu.clock_tick().unwrap();
    cpu.clock_tick().unwrap();
    cpu.clock_tick().unwrap();
    assert_eq!(cpu.registers.A, 0x04);

    cpu.clock_tick().unwrap();
    assert_eq!(cpu.registers.P.get(ProcessorStatusBits::CARRY), false);
    cpu.clock_tick().unwrap();
    assert_eq!(cpu.registers.P.get(ProcessorStatusBits::CARRY), true);
    cpu.clock_tick().unwrap();
    cpu.clock_tick().unwrap();
    assert_eq!(cpu.registers.A, 0xF8);

    cpu.clock_tick().unwrap(); // clc
    cpu.clock_tick().unwrap();
    assert_eq!(cpu.registers.A, 0x7F);
    cpu.clock_tick().unwrap();
    assert_eq!(cpu.registers.A, 0xFE);
    assert_eq!(cpu.registers.P.get(ProcessorStatusBits::NEGATIVE), true);
    cpu.clock_tick().unwrap();
    assert_eq!(cpu.registers.A, 0xFC);

    cpu.clock_tick().unwrap();
    cpu.clock_tick().unwrap();
    assert_eq!(cpu.read_memory(0x2000), 0x80);
    cpu.clock_tick().unwrap();
    assert_eq!(cpu.registers.P.get(ProcessorStatusBits::CARRY), true);
    assert_eq!(cpu.registers.P.get(ProcessorStatusBits::ZERO), true);
    assert_eq!(cpu.registers.P.get(ProcessorStatusBits::NEGATIVE), false);
    assert_eq!(cpu.read_memory(0x2000), 0x00);

    cpu.clock_tick().unwrap();
}

#[test]
fn test_bcc() {
    let nes = initialize(load_program_bcc);
    let mut cpu = nes.cpu;

    cpu.clock_tick().unwrap(); // CLC
    cpu.clock_tick().unwrap(); // NOP
    let mut pc_before_bcc = cpu.registers.PC;
    cpu.clock_tick().unwrap(); // BCC test
    let mut pc_after_bcc = cpu.registers.PC;
    assert!(pc_after_bcc - pc_before_bcc == 3);

    cpu.clock_tick().unwrap(); // SEC
    assert_eq!(cpu.registers.P.get(ProcessorStatusBits::CARRY), true);
    pc_before_bcc = cpu.registers.PC;
    println!("{}", cpu.registers.PC);
    cpu.clock_tick().unwrap(); // BCC success
    pc_after_bcc = cpu.registers.PC;
    println!("{}", cpu.registers.PC);
    assert!(pc_after_bcc - pc_before_bcc == 2);

    cpu.clock_tick().unwrap(); // NOP (of success)
}

#[test]
fn test_bit() {
    let nes = initialize(load_program_bit);
    let mut cpu = nes.cpu;

    cpu.clock_tick().unwrap();
    cpu.clock_tick().unwrap();
    cpu.clock_tick().unwrap();
    assert_eq!(cpu.registers.P.get(ProcessorStatusBits::NEGATIVE), false);
    assert_eq!(cpu.registers.P.get(ProcessorStatusBits::OVERFLOW), true);
    assert_eq!(cpu.registers.P.get(ProcessorStatusBits::ZERO), true);

    cpu.clock_tick().unwrap();
    cpu.clock_tick().unwrap();
    cpu.clock_tick().unwrap();
    assert_eq!(cpu.registers.P.get(ProcessorStatusBits::NEGATIVE), true);
    assert_eq!(cpu.registers.P.get(ProcessorStatusBits::OVERFLOW), false);
    assert_eq!(cpu.registers.P.get(ProcessorStatusBits::ZERO), true);

    cpu.clock_tick().unwrap();
    cpu.clock_tick().unwrap();
    assert_eq!(cpu.registers.P.get(ProcessorStatusBits::NEGATIVE), false);
    assert_eq!(cpu.registers.P.get(ProcessorStatusBits::OVERFLOW), true);
    assert_eq!(cpu.registers.P.get(ProcessorStatusBits::ZERO), false);

    cpu.clock_tick().unwrap();
    assert_eq!(cpu.registers.P.get(ProcessorStatusBits::NEGATIVE), true);
    assert_eq!(cpu.registers.P.get(ProcessorStatusBits::OVERFLOW), false);
    assert_eq!(cpu.registers.P.get(ProcessorStatusBits::ZERO), false);

    cpu.clock_tick().unwrap();
}
