//! The three decoded PPU control ports bundled together.
use crate::ppu::ppuctrl::PPUCtrl;
use crate::ppu::ppumask::PPUMask;
use crate::ppu::ppustatus::PPUStatus;
use vstd::prelude::*;

verus! {

pub struct Registers {
    /// Port at 0x2000.
    pub ppuctrl: PPUCtrl,
    /// Port at 0x2001.
    pub ppumask: PPUMask,
    /// Port at 0x2002.
    pub ppustatus: PPUStatus,
}

impl Registers {
    /// All three ports cleared.
    pub fn new() -> (r: Registers)
        ensures
            r.ppuctrl.flags == 0,
            r.ppumask.flags == 0,
            r.ppustatus.flags == 0,
    {
        Registers {
            ppuctrl: PPUCtrl { flags: 0 },
            ppumask: PPUMask { flags: 0 },
            ppustatus: PPUStatus { flags: 0 },
        }
    }
}

} // verus!
