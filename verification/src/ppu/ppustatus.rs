//! The PPUSTATUS port, as a byte of named flag bits.
use crate::common::{spec_get_bit, spec_set_bit};
use vstd::prelude::*;

verus! {

pub struct PPUStatus {
    pub flags: u8,
}

/// The named bits of PPUSTATUS.  Bits 0..=4 are the open bus.
#[derive(Clone, Copy, Debug, PartialEq, Eq, Structural)]
pub enum PPUStatusBits {
    /// Stale PPU bus contents, bits 0..=4; this names bit 0.
    OpenBus,
    /// Sprite overflow, bit 5.
    O,
    /// Sprite 0 hit, bit 6.
    S,
    /// Vertical blank has started, bit 7.
    V,
}

impl PPUStatusBits {
    /// The position of the bit inside the byte.
    pub open spec fn spec_index(self) -> u8 {
        match self {
            PPUStatusBits::OpenBus => 0,
            PPUStatusBits::O => 5,
            PPUStatusBits::S => 6,
            PPUStatusBits::V => 7,
        }
    }

    pub fn index(self) -> (r: u8)
        ensures
            r == self.spec_index(),
            r < 8,
    {
        match self {
            PPUStatusBits::OpenBus => 0,
            PPUStatusBits::O => 5,
            PPUStatusBits::S => 6,
            PPUStatusBits::V => 7,
        }
    }
}

impl PPUStatus {
    /// Writes the named bit to `value` without touching the other bits.
    pub fn set(&mut self, bit: PPUStatusBits, value: bool)
        ensures
            final(self).flags == spec_set_bit(old(self).flags, bit.spec_index(), value),
    {
        crate::common::set(&mut self.flags, bit.index(), value);
    }

    /// Reads the named bit.
    pub fn get(&self, bit: PPUStatusBits) -> (r: bool)
        ensures
            r == spec_get_bit(self.flags, bit.spec_index()),
    {
        crate::common::get(self.flags, bit.index())
    }
}

} // verus!
