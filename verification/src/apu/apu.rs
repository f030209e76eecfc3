//! The APU register file: a write-only byte window at 0x4000-0x4017.
use vstd::prelude::*;

verus! {

pub struct APU {
    /// The 24 bytes the CPU sees at 0x4000-0x4017.
    pub registers: Vec<u8>,
}

impl APU {
    /// All 24 registers present.
    pub open spec fn wf(&self) -> bool {
        self.registers@.len() == 24
    }

    /// A register file of 24 zero bytes.
    pub fn new() -> (r: APU)
        ensures
            r.wf(),
            r.registers@ == Seq::new(24, |i: int| 0u8),
    {
        APU { registers: crate::common::zero_vec(24) }
    }

    /// Stores `value` in register `index`.
    pub fn write(&mut self, index: usize, value: u8)
        requires
            old(self).wf(),
            index < 24,
        ensures
            final(self).wf(),
            final(self).registers@ == old(self).registers@.update(index as int, value),
    {
        self.registers[index] = value;
    }
}

} // verus!
