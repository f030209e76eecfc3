//! Tests of the processor status register: bit access and formatting.
use nes_core::cpu::registers::ProcessorStatusBits::{CARRY, NEGATIVE};
use nes_core::cpu::registers::{ProcessorStatus, Registers};

#[test]
fn registers_processor_status_register_test() {
    let mut registers = Registers::new();

    assert!(registers.P.get(CARRY) == false);
    registers.P.set(CARRY, true);
    assert!(registers.P.get(CARRY) == true);

    assert!(registers.P.get(NEGATIVE) == false);
    registers.P.set(NEGATIVE, true);
    assert!(registers.P.get(NEGATIVE) == true);
    registers.P.set(NEGATIVE, false);
    assert!(registers.P.get(NEGATIVE) == false);
    registers.P.set(NEGATIVE, false);
    assert!(registers.P.get(NEGATIVE) == false);
}

#[test]
fn cpu_processor_status_register_test() {
    let mut registers = Registers::new();

    assert!(registers.P.get(CARRY) == false);
    registers.P.set(CARRY, true);
    assert!(registers.P.get(CARRY) == true);

    assert!(registers.P.get(NEGATIVE) == false);
    registers.P.set(NEGATIVE, true);
    assert!(registers.P.get(NEGATIVE) == true);
    registers.P.set(NEGATIVE, false);
    assert!(registers.P.get(NEGATIVE) == false);
    registers.P.set(NEGATIVE, false);
    assert!(registers.P.get(NEGATIVE) == false);
}

#[test]
fn p_register_format_test() {
    let mut p = ProcessorStatus { flags: 0 };

    p.flags = 0b1100_0110;
    let expected: Vec<char> = "NV-BDIZC 11000110".chars().collect();
    assert_eq!(p.format_chars(), expected);

    p.flags = 0b0000_0010;
    let expected: Vec<char> = "NV-BDIZC 00000010".chars().collect();
    assert_eq!(p.format_chars(), expected);
}
