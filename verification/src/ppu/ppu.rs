//! The PPU register file: the eight CPU-visible ports at 0x2000-0x2007.
//!
//! The pixel pipeline is out of scope; the PPU here is the abstract
//! collaborator the CPU core talks to.  Reading the status port (index 2)
//! clears its bit 7 after the value is captured.
use crate::cartridge::Cartridge;
use vstd::prelude::*;

verus! {

pub struct PPU {
    /// The eight CPU-visible ports.
    pub registers: Vec<u8>,
    /// A private copy of the first character bank of the cartridge,
    /// address space 0x0000-0x1FFF on the PPU side.
    pub chr_rom: Vec<u8>,
}

impl PPU {
    /// Eight ports and one full 8 KiB character bank.
    pub open spec fn wf(&self) -> bool {
        &&& self.registers@.len() == 8
        &&& self.chr_rom@.len() == 8192
    }

    /// The register file after one read of port `index`: a status read clears
    /// bit 7 of port 2, any other read changes nothing.
    pub open spec fn spec_regs_after_read(regs: Seq<u8>, index: usize) -> Seq<u8> {
        if index == 2 {
            regs.update(2, regs[2] & 0x7Fu8)
        } else {
            regs
        }
    }

    /// Zeroed ports; the character data is copied out of the cartridge.
    pub fn new(cartridge: &Cartridge) -> (r: PPU)
        requires
            cartridge.wf(),
        ensures
            r.wf(),
            r.registers@ == Seq::new(8, |i: int| 0u8),
            r.chr_rom@ == cartridge.chr()[0],
    {
        PPU {
            registers: crate::common::zero_vec(8),
            chr_rom: crate::common::copy_bytes(&cartridge.chr_rom[0]),
        }
    }

    /// Returns the byte of port `index`; reading the status port (index 2)
    /// additionally clears its bit 7 after the value is captured.
    pub fn read_register(&mut self, index: usize) -> (r: u8)
        requires
            old(self).wf(),
            index < 8,
        ensures
            final(self).wf(),
            r == old(self).registers@[index as int],
            final(self).registers@ == Self::spec_regs_after_read(old(self).registers@, index),
            final(self).chr_rom == old(self).chr_rom,
    {
        let result = self.registers[index];
        if index == 2 {
            self.registers[2] = result & 0x7F;
        }
        result
    }

    /// Stores `value` in port `index`.
    pub fn write_register(&mut self, index: usize, value: u8)
        requires
            old(self).wf(),
            index < 8,
        ensures
            final(self).wf(),
            final(self).registers@ == old(self).registers@.update(index as int, value),
            final(self).chr_rom == old(self).chr_rom,
    {
        self.registers[index] = value;
    }
}

} // verus!
