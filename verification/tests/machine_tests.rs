//! Tests of the memory map, the PPU status side effect, the interrupts, the
//! remaining instruction groups, and the hex-dump loader.
use nes_core::common::CoreError;
use nes_core::cpu::cpu::CPU;
use nes_core::cpu::registers::ProcessorStatusBits;
use nes_core::nes::NES;
use nes_core::mmu::{get_memory_map, MemoryMap};
use nes_core::program_loader::write_rom;

/// A machine whose 32 KiB program image starts with `program`, with the
/// program counter forced to 0x8000.
fn machine_with(program: &[u8]) -> NES {
    let mut rom: Vec<u8> = vec![0; 32768];
    rom[..program.len()].copy_from_slice(program);
    let mut nes = NES::new_custom_prg_rom(rom);
    nes.cpu.registers.PC = 0x8000;
    nes
}

fn tick(cpu: &mut CPU, n: usize) {
    for _ in 0..n {
        cpu.clock_tick().unwrap();
    }
}

#[test]
fn test_reset_vector_sets_pc() {
    let mut rom: Vec<u8> = vec![0; 32768];
    rom[0x7FFC] = 0x34;
    rom[0x7FFD] = 0x12;
    let nes = NES::new_custom_prg_rom(rom);
    assert_eq!(nes.cpu.registers.PC, 0x1234);
    assert_eq!(nes.cpu.registers.S, 0xFF);
    assert_eq!(nes.cpu.registers.A, 0);
    assert_eq!(nes.cpu.registers.P.flags, 0x20);
    assert_eq!(nes.cpu.cycles, 8);
}

#[test]
fn test_machine_from_ines_bytes() {
    // One PRG bank: the 16 KiB image is mirrored into both halves, so the
    // reset vector is read from bank 0 offset 0x3FFC.
    let mut img = vec![0x4E, 0x45, 0x53, 0x1A, 1, 1, 0, 0, 0, 0, 0, 0, 0, 0, 0, 0];
    let mut prg = vec![0u8; 16384];
    prg[0x3FFC] = 0x00;
    prg[0x3FFD] = 0x80;
    prg[0] = 0xEA; // NOP at 0x8000
    img.extend_from_slice(&prg);
    img.extend_from_slice(&vec![0u8; 8192]);
    let mut nes = NES::new_from_ines_bytes(&img).unwrap();
    assert_eq!(nes.cpu.registers.PC, 0x8000);
    nes.cpu.clock_tick().unwrap();
    assert_eq!(nes.cpu.registers.PC, 0x8001);

    let bad = vec![1, 2, 3];
    assert!(matches!(NES::new_from_ines_bytes(&bad), Err(CoreError::Truncated)));
}

#[test]
fn test_mmu_ram_mirroring() {
    let nes = machine_with(&[0xEA]);
    let mut cpu = nes.cpu;
    cpu.write_memory(0x0005, 0x42);
    assert_eq!(cpu.read_memory(0x0805), 0x42);
    assert_eq!(cpu.read_memory(0x1005), 0x42);
    assert_eq!(cpu.read_memory(0x1805), 0x42);
    cpu.write_memory(0x1FFF, 0x77);
    assert_eq!(cpu.read_memory(0x07FF), 0x77);
    cpu.write_memory(0x0150, 0x33);
    assert_eq!(cpu.read_memory(0x0950), 0x33);
}

#[test]
fn test_ppu_register_mirroring_and_status_read() {
    let nes = machine_with(&[0xEA]);
    let mut cpu = nes.cpu;
    // Port 2 is mirrored every eight bytes through 0x3FFF.
    cpu.write_memory(0x2002, 0xFF);
    assert_eq!(cpu.read_memory(0x200A), 0xFF);
    // That read captured bit 7 and cleared it: a second read returns it low.
    assert_eq!(cpu.read_memory(0x2002), 0x7F);
    assert_eq!(cpu.read_memory(0x3FFA), 0x7F);
    // Other ports read back unchanged.
    cpu.write_memory(0x2001, 0xC1);
    assert_eq!(cpu.read_memory(0x2001), 0xC1);
    assert_eq!(cpu.read_memory(0x2001), 0xC1);
}

#[test]
fn test_apu_window_and_reserved_ranges() {
    let nes = machine_with(&[0xEA]);
    let mut cpu = nes.cpu;
    cpu.write_memory(0x4005, 0xAA);
    assert_eq!(cpu.apu.registers[5], 0xAA);
    cpu.write_memory(0x4017, 0xBB);
    assert_eq!(cpu.apu.registers[23], 0xBB);
    // The APU window is write-only; reserved ranges read as zero.
    assert_eq!(cpu.read_memory(0x4005), 0);
    assert_eq!(cpu.read_memory(0x5000), 0);
    assert_eq!(cpu.read_memory(0x6000), 0);
    // Writes to the cartridge ROM are ignored in mapper 0.
    let before = cpu.read_memory(0x8000);
    cpu.write_memory(0x8000, before.wrapping_add(1));
    assert_eq!(cpu.read_memory(0x8000), before);
}

#[test]
fn test_decoder_executor_agreement() {
    // Every documented opcode executes without an addressing-mode
    // disagreement; every undocumented one reports itself.
    for opcode in 0..=255u8 {
        let nes = machine_with(&[opcode]);
        let mut cpu = nes.cpu;
        match cpu.clock_tick() {
            Ok(()) => {}
            Err(e) => assert_eq!(e, CoreError::UnknownOpcode(opcode)),
        }
    }
}

#[test]
fn test_unknown_opcode_is_reported() {
    let nes = machine_with(&[0x02]);
    let mut cpu = nes.cpu;
    assert_eq!(cpu.clock_tick(), Err(CoreError::UnknownOpcode(0x02)));
}

#[test]
fn test_adc_exact_sum_and_carry() {
    // CLC; LDA #$05; ADC #$03
    let nes = machine_with(&[0x18, 0xA9, 0x05, 0x69, 0x03]);
    let mut cpu = nes.cpu;
    tick(&mut cpu, 3);
    assert_eq!(cpu.registers.A, 0x08);
    assert_eq!(cpu.registers.P.get(ProcessorStatusBits::CARRY), false);

    // SEC; LDA #$FE; ADC #$01 -> 0xFE + 1 + 1 = 0x100
    let nes = machine_with(&[0x38, 0xA9, 0xFE, 0x69, 0x01]);
    let mut cpu = nes.cpu;
    tick(&mut cpu, 3);
    assert_eq!(cpu.registers.A, 0x00);
    assert_eq!(cpu.registers.P.get(ProcessorStatusBits::CARRY), true);
    assert_eq!(cpu.registers.P.get(ProcessorStatusBits::ZERO), true);
}

#[test]
fn test_sbc() {
    // SEC; LDA #$10; SBC #$01
    let nes = machine_with(&[0x38, 0xA9, 0x10, 0xE9, 0x01]);
    let mut cpu = nes.cpu;
    tick(&mut cpu, 3);
    assert_eq!(cpu.registers.A, 0x0F);
    assert_eq!(cpu.registers.P.get(ProcessorStatusBits::CARRY), true);

    // CLC; LDA #$00; SBC #$00 -> 0 - 0 - 1 = 0xFF, borrow out
    let nes = machine_with(&[0x18, 0xA9, 0x00, 0xE9, 0x00]);
    let mut cpu = nes.cpu;
    tick(&mut cpu, 3);
    assert_eq!(cpu.registers.A, 0xFF);
    assert_eq!(cpu.registers.P.get(ProcessorStatusBits::CARRY), false);
}

#[test]
fn test_jsr_rts_round_trip() {
    // JSR $8005; then at 0x8005 an RTS returns to the pushed address plus
    // one, the third byte of the JSR plus one.
    let nes = machine_with(&[0x20, 0x05, 0x80, 0xEA, 0xEA, 0x60]);
    let mut cpu = nes.cpu;
    cpu.clock_tick().unwrap();
    assert_eq!(cpu.registers.PC, 0x8005);
    assert_eq!(cpu.registers.S, 0xFD);
    cpu.clock_tick().unwrap();
    assert_eq!(cpu.registers.PC, 0x8003);
    assert_eq!(cpu.registers.S, 0xFF);
}

#[test]
fn test_php_plp() {
    // SEC; PHP; CLC; PLP: carry is restored; the break bit comes back
    // inverted, as the status pull discards the stored break sense.
    let nes = machine_with(&[0x38, 0x08, 0x18, 0x28]);
    let mut cpu = nes.cpu;
    tick(&mut cpu, 2);
    assert_eq!(cpu.read_memory(0x01FF), 0x21); // carry + unused bit
    tick(&mut cpu, 1);
    assert_eq!(cpu.registers.P.get(ProcessorStatusBits::CARRY), false);
    tick(&mut cpu, 1);
    assert_eq!(cpu.registers.P.get(ProcessorStatusBits::CARRY), true);
    assert_eq!(cpu.registers.P.get(ProcessorStatusBits::BREAK), true);
}

#[test]
fn test_shifts_and_rotates() {
    // SEC; LDA #$81; ROL A -> 0x03, carry out 1
    let nes = machine_with(&[0x38, 0xA9, 0x81, 0x2A]);
    let mut cpu = nes.cpu;
    tick(&mut cpu, 3);
    assert_eq!(cpu.registers.A, 0x03);
    assert_eq!(cpu.registers.P.get(ProcessorStatusBits::CARRY), true);

    // SEC; LDA #$02; ROR A -> 0x81, carry out 0
    let nes = machine_with(&[0x38, 0xA9, 0x02, 0x6A]);
    let mut cpu = nes.cpu;
    tick(&mut cpu, 3);
    assert_eq!(cpu.registers.A, 0x81);
    assert_eq!(cpu.registers.P.get(ProcessorStatusBits::CARRY), false);

    // LDA #$03; LSR A -> 0x01, carry out 1
    let nes = machine_with(&[0xA9, 0x03, 0x4A]);
    let mut cpu = nes.cpu;
    tick(&mut cpu, 2);
    assert_eq!(cpu.registers.A, 0x01);
    assert_eq!(cpu.registers.P.get(ProcessorStatusBits::CARRY), true);
}

#[test]
fn test_ora_eor_and_index_steps() {
    // LDA #$0F; ORA #$F0; EOR #$FF; LDY #$01; DEY; INY; DEX
    let nes = machine_with(&[0xA9, 0x0F, 0x09, 0xF0, 0x49, 0xFF, 0xA0, 0x01, 0x88, 0xC8, 0xCA]);
    let mut cpu = nes.cpu;
    tick(&mut cpu, 2);
    assert_eq!(cpu.registers.A, 0xFF);
    tick(&mut cpu, 1);
    assert_eq!(cpu.registers.A, 0x00);
    assert_eq!(cpu.registers.P.get(ProcessorStatusBits::ZERO), true);
    tick(&mut cpu, 2);
    assert_eq!(cpu.registers.Y, 0x00);
    tick(&mut cpu, 1);
    assert_eq!(cpu.registers.Y, 0x01);
    tick(&mut cpu, 1);
    assert_eq!(cpu.registers.X, 0xFF);
    assert_eq!(cpu.registers.P.get(ProcessorStatusBits::NEGATIVE), true);
}

#[test]
fn test_nmi_and_irq() {
    let mut rom: Vec<u8> = vec![0; 32768];
    rom[0x7FFA] = 0x00; // NMI vector -> 0x9000
    rom[0x7FFB] = 0x90;
    rom[0x7FFE] = 0x00; // IRQ vector -> 0xA000
    rom[0x7FFF] = 0xA0;
    let mut nes = NES::new_custom_prg_rom(rom);
    nes.cpu.registers.PC = 0x8000;
    let mut cpu = nes.cpu;

    cpu.nmi_interrupt();
    assert_eq!(cpu.registers.PC, 0x9000);
    assert_eq!(cpu.registers.S, 0xFC); // return address and status pushed
    assert_eq!(cpu.registers.P.get(ProcessorStatusBits::InterruptDisable), true);

    // With the interrupt-disable flag now set, an IRQ is ignored.
    let pc = cpu.registers.PC;
    cpu.irq_interrupt();
    assert_eq!(cpu.registers.PC, pc);

    cpu.registers.P.set(ProcessorStatusBits::InterruptDisable, false);
    cpu.irq_interrupt();
    assert_eq!(cpu.registers.PC, 0xA000);
}

#[test]
fn test_brk_pushes_and_vectors() {
    let mut rom: Vec<u8> = vec![0; 32768];
    rom[0] = 0x00; // BRK at 0x8000
    rom[0x7FFE] = 0x00; // IRQ/BRK vector -> 0xC000
    rom[0x7FFF] = 0xC0;
    let mut nes = NES::new_custom_prg_rom(rom);
    nes.cpu.registers.PC = 0x8000;
    let mut cpu = nes.cpu;
    cpu.clock_tick().unwrap();
    assert_eq!(cpu.registers.PC, 0xC000);
    assert_eq!(cpu.registers.P.get(ProcessorStatusBits::InterruptDisable), true);
    // The stack holds PC+2 (high then low) and the status with break set.
    assert_eq!(cpu.read_memory(0x01FF), 0x80);
    assert_eq!(cpu.read_memory(0x01FE), 0x02);
    assert_eq!(cpu.read_memory(0x01FD), 0x30); // unused + break bits
}

#[test]
fn test_memory_map_regions() {
    assert_eq!(get_memory_map(0x0000), MemoryMap::ZEROPAGE);
    assert_eq!(get_memory_map(0x00FF), MemoryMap::ZEROPAGE);
    assert_eq!(get_memory_map(0x0100), MemoryMap::STACK);
    assert_eq!(get_memory_map(0x01FF), MemoryMap::STACK);
    assert_eq!(get_memory_map(0x0200), MemoryMap::RAM);
    assert_eq!(get_memory_map(0x07FF), MemoryMap::RAM);
    assert_eq!(get_memory_map(0x0800), MemoryMap::Mirrors0000_07FF);
    assert_eq!(get_memory_map(0x1FFF), MemoryMap::Mirrors0000_07FF);
    assert_eq!(get_memory_map(0x2000), MemoryMap::MappedIO);
    assert_eq!(get_memory_map(0x401F), MemoryMap::MappedIO);
    assert_eq!(get_memory_map(0x4020), MemoryMap::ExpansionROM);
    assert_eq!(get_memory_map(0x5FFF), MemoryMap::ExpansionROM);
    assert_eq!(get_memory_map(0x6000), MemoryMap::SRAM);
    assert_eq!(get_memory_map(0x7FFF), MemoryMap::SRAM);
    assert_eq!(get_memory_map(0x8000), MemoryMap::PrgRom);
    assert_eq!(get_memory_map(0xFFFF), MemoryMap::PrgRom);
}

#[test]
fn test_write_rom_rejects_malformed_dump() {
    let mut rom: Vec<u8> = vec![9; 16];
    write_rom(&mut rom, "XY");
    assert!(rom.iter().all(|&b| b == 9));
    write_rom(&mut rom, "A9 8");
    assert!(rom.iter().all(|&b| b == 9));
    write_rom(&mut rom, "a9 ff");
    assert_eq!(rom[0], 0xA9);
    assert_eq!(rom[1], 0xFF);
    assert_eq!(rom[2], 9);
}
