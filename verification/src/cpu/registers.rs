//! The 6502 register file and the packed processor-status byte.
use crate::common::{spec_get_bit, spec_set_bit};
use vstd::prelude::*;

verus! {

/// The CPU registers.
#[allow(non_snake_case)]
pub struct Registers {
    /// Accumulator.
    pub A: u8,
    /// Index register X.
    pub X: u8,
    /// Index register Y.
    pub Y: u8,
    /// Processor status flag bits.
    pub P: ProcessorStatus,
    /// Stack pointer, an offset into page 1.
    pub S: u8,
    /// Program counter.
    pub PC: u16,
}

impl Registers {
    /// The power-on register file: everything zero, the unused status bit set.
    pub fn new() -> (r: Registers)
        ensures
            r.A == 0 && r.X == 0 && r.Y == 0 && r.S == 0 && r.PC == 0,
            r.P.flags == 0x20,
    {
        Registers { A: 0, X: 0, Y: 0, P: ProcessorStatus::new(), S: 0, PC: 0 }
    }
}

/// The named bits of the processor status byte, low bit first:
/// carry, zero, interrupt disable, decimal, break, unused (kept at 1 by
/// convention), overflow, negative.
#[derive(Clone, Copy, Debug, PartialEq, Eq, Structural)]
pub enum ProcessorStatusBits {
    CARRY,
    ZERO,
    InterruptDisable,
    DECIMAL,
    BREAK,
    UNUSED,
    OVERFLOW,
    NEGATIVE,
}

impl ProcessorStatusBits {
    /// The position of the bit inside the byte.
    pub open spec fn spec_index(self) -> u8 {
        match self {
            ProcessorStatusBits::CARRY => 0,
            ProcessorStatusBits::ZERO => 1,
            ProcessorStatusBits::InterruptDisable => 2,
            ProcessorStatusBits::DECIMAL => 3,
            ProcessorStatusBits::BREAK => 4,
            ProcessorStatusBits::UNUSED => 5,
            ProcessorStatusBits::OVERFLOW => 6,
            ProcessorStatusBits::NEGATIVE => 7,
        }
    }

    pub fn index(self) -> (r: u8)
        ensures
            r == self.spec_index(),
            r < 8,
    {
        match self {
            ProcessorStatusBits::CARRY => 0,
            ProcessorStatusBits::ZERO => 1,
            ProcessorStatusBits::InterruptDisable => 2,
            ProcessorStatusBits::DECIMAL => 3,
            ProcessorStatusBits::BREAK => 4,
            ProcessorStatusBits::UNUSED => 5,
            ProcessorStatusBits::OVERFLOW => 6,
            ProcessorStatusBits::NEGATIVE => 7,
        }
    }
}

/// The processor status register: eight flag bits packed in one byte.
pub struct ProcessorStatus {
    pub flags: u8,
}

/// The negative flag set from bit 7 of `value` and the zero flag set from
/// `value == 0`, over the status byte `flags`.
pub open spec fn spec_modify_nz(flags: u8, value: u8) -> u8 {
    spec_set_bit(spec_set_bit(flags, 7, value >> 7u8 == 1), 1, value == 0)
}

/// The characters a status byte prints as: the legend `NV-BDIZC`, a space,
/// then the eight bits most significant first.
pub open spec fn spec_p_chars(flags: u8) -> Seq<char> {
    seq!['N', 'V', '-', 'B', 'D', 'I', 'Z', 'C', ' '] + Seq::new(
        8,
        |i: int| if spec_get_bit(flags, (7 - i) as u8) { '1' } else { '0' },
    )
}

impl ProcessorStatus {
    /// The conventional power-on value: only the unused bit set.
    pub fn new() -> (r: ProcessorStatus)
        ensures
            r.flags == 0x20,
    {
        ProcessorStatus { flags: 0b0010_0000 }
    }

    /// Writes the named flag to `value` without touching the other bits.
    pub fn set(&mut self, bit: ProcessorStatusBits, value: bool)
        ensures
            final(self).flags == spec_set_bit(old(self).flags, bit.spec_index(), value),
    {
        crate::common::set(&mut self.flags, bit.index(), value);
    }

    /// Reads the named flag.
    pub fn get(&self, bit: ProcessorStatusBits) -> (r: bool)
        ensures
            r == spec_get_bit(self.flags, bit.spec_index()),
    {
        crate::common::get(self.flags, bit.index())
    }

    /// Sets the negative flag from bit 7 of an arithmetic result.
    pub fn modify_n(&mut self, value: u8)
        ensures
            final(self).flags == spec_set_bit(old(self).flags, 7, value >> 7u8 == 1),
    {
        self.set(ProcessorStatusBits::NEGATIVE, value >> 7u8 == 1);
    }

    /// Sets the zero flag from an arithmetic result being zero.
    pub fn modify_z(&mut self, value: u8)
        ensures
            final(self).flags == spec_set_bit(old(self).flags, 1, value == 0),
    {
        self.set(ProcessorStatusBits::ZERO, value == 0);
    }

    /// The characters the register prints as: `NV-BDIZC`, a space, and the
    /// eight bits most significant first.
    pub fn format_chars(&self) -> (r: Vec<char>)
        ensures
            r@ == spec_p_chars(self.flags),
    {
        let mut v: Vec<char> = Vec::new();
        v.push('N');
        v.push('V');
        v.push('-');
        v.push('B');
        v.push('D');
        v.push('I');
        v.push('Z');
        v.push('C');
        v.push(' ');
        let mut i: u8 = 0;
        while i < 8
            invariant
                i <= 8,
                v@.len() == 9 + i as int,
                v@ =~= spec_p_chars(self.flags).take(9 + i as int),
            decreases 8 - i,
        {
            let bit = crate::common::get(self.flags, 7 - i);
            v.push(if bit { '1' } else { '0' });
            assert(v@ =~= spec_p_chars(self.flags).take(9 + (i + 1)));
            i = i + 1;
        }
        assert(v@ =~= spec_p_chars(self.flags));
        v
    }
}

} // verus!
