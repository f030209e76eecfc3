//! A flat 64 KiB random-access memory, addressed by a full 16-bit address.
use vstd::prelude::*;

verus! {

/// 64 KiB of byte-addressable memory.
pub struct RAM {
    pub ram: Vec<u8>,
}

impl RAM {
    /// Every address is in bounds exactly when the backing store covers the
    /// full 16-bit address space.
    pub open spec fn wf(&self) -> bool {
        self.ram@.len() == 0x10000
    }

    /// The byte stored at `addr`.
    pub open spec fn spec_read(&self, addr: u16) -> u8 {
        self.ram@[addr as int]
    }

    /// A RAM of 65,536 zero bytes.
    pub fn new() -> (r: RAM)
        ensures
            r.wf(),
            forall|a: u16| r.spec_read(a) == 0u8,
    {
        let ram = RAM { ram: crate::common::zero_vec(0x10000) };
        ram
    }

    /// Stores `data` at `addr`; every other byte keeps its value.
    pub fn write(&mut self, addr: u16, data: u8)
        requires
            old(self).wf(),
        ensures
            final(self).wf(),
            final(self).spec_read(addr) == data,
            forall|a: u16| a != addr ==> final(self).spec_read(a) == old(self).spec_read(a),
    {
        self.ram[addr as usize] = data;
    }

    /// Loads the byte at `addr`.
    pub fn read(&self, addr: u16) -> (r: u8)
        requires
            self.wf(),
        ensures
            r == self.spec_read(addr),
    {
        self.ram[addr as usize]
    }
}

} // verus!
