//! The PPUCTRL port, as a byte of named flag bits.
use crate::common::{spec_get_bit, spec_set_bit};
use vstd::prelude::*;

verus! {

pub struct PPUCtrl {
    pub flags: u8,
}

/// The named bits of PPUCTRL, low bit first.
#[derive(Clone, Copy, Debug, PartialEq, Eq, Structural)]
pub enum PPUCtrlBits {
    /// Base nametable address, bit 0.
    N1,
    /// Base nametable address, bit 1.
    N2,
    /// VRAM address increment per PPUDATA access.
    I,
    /// Sprite pattern table address.
    S,
    /// Background pattern table address.
    B,
    /// Sprite size.
    H,
    /// Master/slave select.
    P,
    /// Generate an NMI at the start of vertical blanking.
    V,
}

impl PPUCtrlBits {
    /// The position of the bit inside the byte.
    pub open spec fn spec_index(self) -> u8 {
        match self {
            PPUCtrlBits::N1 => 0,
            PPUCtrlBits::N2 => 1,
            PPUCtrlBits::I => 2,
            PPUCtrlBits::S => 3,
            PPUCtrlBits::B => 4,
            PPUCtrlBits::H => 5,
            PPUCtrlBits::P => 6,
            PPUCtrlBits::V => 7,
        }
    }

    pub fn index(self) -> (r: u8)
        ensures
            r == self.spec_index(),
            r < 8,
    {
        match self {
            PPUCtrlBits::N1 => 0,
            PPUCtrlBits::N2 => 1,
            PPUCtrlBits::I => 2,
            PPUCtrlBits::S => 3,
            PPUCtrlBits::B => 4,
            PPUCtrlBits::H => 5,
            PPUCtrlBits::P => 6,
            PPUCtrlBits::V => 7,
        }
    }
}

impl PPUCtrl {
    /// Writes the named bit to `value` without touching the other bits.
    pub fn set(&mut self, bit: PPUCtrlBits, value: bool)
        ensures
            final(self).flags == spec_set_bit(old(self).flags, bit.spec_index(), value),
    {
        crate::common::set(&mut self.flags, bit.index(), value);
    }

    /// Reads the named bit.
    pub fn get(&self, bit: PPUCtrlBits) -> (r: bool)
        ensures
            r == spec_get_bit(self.flags, bit.spec_index()),
    {
        crate::common::get(self.flags, bit.index())
    }
}

} // verus!
