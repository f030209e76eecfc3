//! Tests of the opcode decoder table.
use nes_core::common::CoreError;
use nes_core::cpu::decoder::{decode_opcode, AddressingMode, Instructions};

#[test]
fn test_decoder() {
    let result = decode_opcode(0x18).unwrap(); // Clear Carry Flag
    assert!(
        result.0 == Instructions::CLC && result.1 == AddressingMode::IMPLIED && result.2 == 1
            && result.3 == 2
    );
}

/// Every documented opcode decodes to a length of 1..=3 bytes and base cycles
/// of 2..=7; every undocumented opcode is reported back as itself.
#[test]
fn test_decoder_lengths_and_cycles() {
    let mut documented: u32 = 0;
    for opcode in 0..=255u8 {
        match decode_opcode(opcode) {
            Ok(row) => {
                assert!(1 <= row.2 && row.2 <= 3);
                assert!(2 <= row.3 && row.3 <= 7);
                documented += 1;
            }
            Err(e) => {
                assert_eq!(e, CoreError::UnknownOpcode(opcode));
            }
        }
    }
    assert_eq!(documented, 151);
}

#[test]
fn test_decoder_rows() {
    let lda = decode_opcode(0xA9).unwrap();
    assert!(lda.0 == Instructions::LDA && lda.1 == AddressingMode::IMMEDIATE);
    assert!(lda.2 == 2 && lda.3 == 2);

    let jmp = decode_opcode(0x6C).unwrap();
    assert!(jmp.0 == Instructions::JMP && jmp.1 == AddressingMode::INDIRECT);
    assert!(jmp.2 == 3 && jmp.3 == 5);

    let sta = decode_opcode(0x9D).unwrap();
    assert!(sta.0 == Instructions::STA && sta.1 == AddressingMode::ABSOLUTEX);
    assert!(sta.2 == 3 && sta.3 == 5);

    assert_eq!(decode_opcode(0x02), Err(CoreError::UnknownOpcode(0x02)));
    assert_eq!(decode_opcode(0xFF), Err(CoreError::UnknownOpcode(0xFF)));
}
