//! Tests of the iNES parser: every rejection kind, an accepted image, and the
//! round trip of header plus banks.
use nes_core::common::CoreError;
use nes_core::rom_parser::{MirrorType, RomParser};

/// A minimal valid image: `prg` 16 KiB banks and `chr` 8 KiB banks, the PRG
/// region filled with `fill`.
fn image(prg: u8, chr: u8, fill: u8) -> Vec<u8> {
    let mut v = vec![0x4E, 0x45, 0x53, 0x1A, prg, chr, 0, 0, 0, 0, 0, 0, 0, 0, 0, 0];
    for i in 0..(prg as usize) * 16384 {
        v.push(fill.wrapping_add((i % 251) as u8));
    }
    for i in 0..(chr as usize) * 8192 {
        v.push((i % 7) as u8);
    }
    v
}

#[test]
fn test_parse_accepts_minimal_image() {
    let img = image(1, 1, 3);
    let mut parser = RomParser::new();
    assert_eq!(parser.parse_bytes(&img), Ok(()));
    assert_eq!(parser.header.prg_rom_size, 1);
    assert_eq!(parser.header.chr_rom_size, 1);
    assert_eq!(parser.header.mapper, 0);
    assert!(matches!(parser.header.mirroring, MirrorType::HORIZONTAL));
    assert_eq!(parser.prg_rom.len(), 1);
    assert_eq!(parser.prg_rom[0].len(), 16384);
    assert_eq!(parser.prg_rom[0][0], 3);
    assert_eq!(parser.chr_rom.len(), 1);
    assert_eq!(parser.chr_rom[0].len(), 8192);
}

#[test]
fn test_parse_flags6_fields() {
    let mut img = image(1, 1, 0);
    img[6] = 0b0000_0011; // vertical mirroring + battery
    let mut parser = RomParser::new();
    assert_eq!(parser.parse_bytes(&img), Ok(()));
    assert!(matches!(parser.header.mirroring, MirrorType::VERTICAL));
    assert!(parser.header.battery_prg_ram);
}

#[test]
fn test_parse_missing_chr_gets_zero_bank() {
    let img = image(2, 0, 9);
    let mut parser = RomParser::new();
    assert_eq!(parser.parse_bytes(&img), Ok(()));
    assert_eq!(parser.prg_rom.len(), 2);
    assert_eq!(parser.chr_rom.len(), 1);
    assert!(parser.chr_rom[0].iter().all(|&b| b == 0));
}

#[test]
fn test_parse_bad_magic() {
    let mut img = image(1, 1, 0);
    img[0] = 0x4D;
    let mut parser = RomParser::new();
    assert_eq!(parser.parse_bytes(&img), Err(CoreError::BadMagic));
}

#[test]
fn test_parse_bad_padding() {
    let mut img = image(1, 1, 0);
    img[12] = 1;
    let mut parser = RomParser::new();
    assert_eq!(parser.parse_bytes(&img), Err(CoreError::BadPadding));
}

#[test]
fn test_parse_rejects_nes2() {
    let mut img = image(1, 1, 0);
    img[7] = 0b0000_1000; // format bits = 2
    let mut parser = RomParser::new();
    assert_eq!(parser.parse_bytes(&img), Err(CoreError::UnsupportedFormat));
}

#[test]
fn test_parse_rejects_trainer() {
    let mut img = image(1, 1, 0);
    img[6] = 0b0000_0100;
    let mut parser = RomParser::new();
    assert_eq!(parser.parse_bytes(&img), Err(CoreError::UnsupportedFormat));
}

#[test]
fn test_parse_rejects_nonzero_mapper() {
    let mut img = image(1, 1, 0);
    img[6] = 0b0001_0000; // mapper low nibble = 1
    let mut parser = RomParser::new();
    assert_eq!(parser.parse_bytes(&img), Err(CoreError::UnsupportedMapper));
}

#[test]
fn test_parse_truncated() {
    let mut parser = RomParser::new();
    let short = vec![0x4E, 0x45, 0x53];
    assert_eq!(parser.parse_bytes(&short), Err(CoreError::Truncated));

    let mut img = image(1, 1, 0);
    img.pop();
    assert_eq!(parser.parse_bytes(&img), Err(CoreError::Truncated));

    let mut img2 = image(1, 1, 0);
    img2.push(0);
    assert_eq!(parser.parse_bytes(&img2), Err(CoreError::Truncated));
}

#[test]
fn test_ines_round_trip() {
    let img = image(2, 1, 77);
    let mut parser = RomParser::new();
    assert_eq!(parser.parse_bytes(&img), Ok(()));
    let mut rebuilt: Vec<u8> = Vec::new();
    rebuilt.extend_from_slice(&parser.header_bytes);
    for bank in &parser.prg_rom {
        rebuilt.extend_from_slice(bank);
    }
    for bank in &parser.chr_rom {
        rebuilt.extend_from_slice(bank);
    }
    assert_eq!(rebuilt, img);
}
