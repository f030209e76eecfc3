//! The PPUMASK port, as a byte of named flag bits.
use crate::common::{spec_get_bit, spec_set_bit};
use vstd::prelude::*;

verus! {

pub struct PPUMask {
    pub flags: u8,
}

/// The named bits of PPUMASK, low bit first.
#[derive(Clone, Copy, Debug, PartialEq, Eq, Structural)]
pub enum PPUMaskBits {
    /// Greyscale display.
    GRAYSCALE,
    /// Show background in the leftmost eight pixels.
    ShowBackground,
    /// Show sprites in the leftmost eight pixels.
    M,
    /// Show background.
    BACKGROUND,
    /// Show sprites.
    SPRITES,
    /// Emphasize red.
    R,
    /// Emphasize green.
    G,
    /// Emphasize blue.
    B,
}

impl PPUMaskBits {
    /// The position of the bit inside the byte.
    pub open spec fn spec_index(self) -> u8 {
        match self {
            PPUMaskBits::GRAYSCALE => 0,
            PPUMaskBits::ShowBackground => 1,
            PPUMaskBits::M => 2,
            PPUMaskBits::BACKGROUND => 3,
            PPUMaskBits::SPRITES => 4,
            PPUMaskBits::R => 5,
            PPUMaskBits::G => 6,
            PPUMaskBits::B => 7,
        }
    }

    pub fn index(self) -> (r: u8)
        ensures
            r == self.spec_index(),
            r < 8,
    {
        match self {
            PPUMaskBits::GRAYSCALE => 0,
            PPUMaskBits::ShowBackground => 1,
            PPUMaskBits::M => 2,
            PPUMaskBits::BACKGROUND => 3,
            PPUMaskBits::SPRITES => 4,
            PPUMaskBits::R => 5,
            PPUMaskBits::G => 6,
            PPUMaskBits::B => 7,
        }
    }
}

impl PPUMask {
    /// Writes the named bit to `value` without touching the other bits.
    pub fn set(&mut self, bit: PPUMaskBits, value: bool)
        ensures
            final(self).flags == spec_set_bit(old(self).flags, bit.spec_index(), value),
    {
        crate::common::set(&mut self.flags, bit.index(), value);
    }

    /// Reads the named bit.
    pub fn get(&self, bit: PPUMaskBits) -> (r: bool)
        ensures
            r == spec_get_bit(self.flags, bit.spec_index()),
    {
        crate::common::get(self.flags, bit.index())
    }
}

} // verus!
