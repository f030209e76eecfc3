//! Tests of the flat 64 KiB RAM.
use nes_core::ram::RAM;

#[test]
fn ram_test() {
    let mut ram: RAM = RAM::new();
    let addr: u16 = 0x1234;
    ram.write(addr, 0xAB);
    ram.write(addr + 1, 0xCD);

    assert!(ram.read(0) == 0);
    assert!(ram.read(addr - 1) == 0x00);
    assert!(ram.read(addr) == 0xAB);
    assert!(ram.read(addr + 1) == 0xCD);
    assert!(ram.read(addr + 2) == 0x00);
}
