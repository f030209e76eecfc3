//! The MMU: translates CPU-visible 16-bit addresses to the backing store and
//! holds the active PRG bank selectors.
use crate::apu::apu::APU;
use crate::cartridge::Cartridge;
use crate::cpu::cpu::LowerMemory;
use crate::cpu::model::MemView;
use crate::ppu::ppu::PPU;
use vstd::prelude::*;

verus! {

/// The regions of the CPU-visible address space.
#[derive(Clone, Copy, Debug, PartialEq, Eq, Structural)]
pub enum MemoryMap {
    /// 0x0000-0x00FF.
    ZEROPAGE,
    /// 0x0100-0x01FF.
    STACK,
    /// 0x0200-0x07FF.
    RAM,
    /// 0x0800-0x1FFF, a mirror of 0x0000-0x07FF.
    Mirrors0000_07FF,
    /// 0x2000-0x401F: the PPU and APU register windows.
    MappedIO,
    /// 0x4020-0x5FFF: reserved for cartridge expansion.
    ExpansionROM,
    /// 0x6000-0x7FFF: battery-backed RAM, not wired in this core.
    SRAM,
    /// 0x8000-0xFFFF: cartridge program ROM.
    PrgRom,
}

/// Classifies an address into the region of the canonical memory map that
/// holds it.
pub fn get_memory_map(addr: u16) -> (r: MemoryMap)
    ensures
        r == (if addr < 0x100 {
            MemoryMap::ZEROPAGE
        } else if addr < 0x200 {
            MemoryMap::STACK
        } else if addr < 0x800 {
            MemoryMap::RAM
        } else if addr < 0x2000 {
            MemoryMap::Mirrors0000_07FF
        } else if addr < 0x4020 {
            MemoryMap::MappedIO
        } else if addr < 0x6000 {
            MemoryMap::ExpansionROM
        } else if addr < 0x8000 {
            MemoryMap::SRAM
        } else {
            MemoryMap::PrgRom
        }),
{
    if addr < 0x100 {
        MemoryMap::ZEROPAGE
    } else if addr < 0x200 {
        MemoryMap::STACK
    } else if addr < 0x800 {
        MemoryMap::RAM
    } else if addr < 0x2000 {
        MemoryMap::Mirrors0000_07FF
    } else if addr < 0x4020 {
        MemoryMap::MappedIO
    } else if addr < 0x6000 {
        MemoryMap::ExpansionROM
    } else if addr < 0x8000 {
        MemoryMap::SRAM
    } else {
        MemoryMap::PrgRom
    }
}

pub struct MMU {
    /// The PRG bank mapped at 0x8000-0xBFFF.
    pub active_prgbank_number_lower: u8,
    /// The PRG bank mapped at 0xC000-0xFFFF.
    pub active_prgbank_number_upper: u8,
    /// The CHR bank handed to the PPU.
    pub active_chrbank_number: u8,
}

/// The memory view an MMU wires together out of the parts it dispatches to.
pub open spec fn spec_mem_view(
    mmu: MMU,
    cartridge: Cartridge,
    ppu: PPU,
    lower_memory: LowerMemory,
) -> MemView {
    MemView {
        zp: lower_memory.zero_page@,
        stack: lower_memory.stack@,
        ram: lower_memory.ram@,
        ppu: ppu.registers@,
        prg: cartridge.prg(),
        lo: mmu.active_prgbank_number_lower as int,
        hi: mmu.active_prgbank_number_upper as int,
    }
}

impl MMU {
    /// Both selectors name banks the cartridge has.
    pub open spec fn wf(&self, cartridge: &Cartridge) -> bool {
        &&& (self.active_prgbank_number_lower as int) < cartridge.prg_rom@.len()
        &&& (self.active_prgbank_number_upper as int) < cartridge.prg_rom@.len()
    }

    /// The reset configuration: bank 0 in both halves when the cartridge has
    /// a single PRG bank (the 16 KiB image is mirrored), banks 0 and 1
    /// otherwise.
    pub fn new(cartridge: &Cartridge) -> (r: MMU)
        requires
            cartridge.wf(),
        ensures
            r.wf(cartridge),
            r.active_prgbank_number_lower == 0,
            r.active_prgbank_number_upper == if cartridge.num_prg_banks == 1 {
                0u8
            } else {
                1u8
            },
            r.active_chrbank_number == 0,
    {
        let mut active_prgbank_number_lower: u8 = 0;
        let mut active_prgbank_number_upper: u8 = 1;
        if cartridge.num_prg_banks == 1 {
            active_prgbank_number_lower = 0;
            active_prgbank_number_upper = 0;
        }
        MMU { active_prgbank_number_lower, active_prgbank_number_upper, active_chrbank_number: 0 }
    }

    /// Resolves a CPU read of `addr` against the canonical memory map,
    /// forwarding the status-read side effect to the PPU.
    pub fn read_request(
        &self,
        cartridge: &Cartridge,
        ppu: &mut PPU,
        addr: u16,
        lower_memory: &LowerMemory,
    ) -> (r: u8)
        requires
            cartridge.wf(),
            old(ppu).wf(),
            lower_memory.wf(),
            self.wf(cartridge),
        ensures
            final(ppu).wf(),
            r == spec_mem_view(*self, *cartridge, *old(ppu), *lower_memory).read(addr),
            spec_mem_view(*self, *cartridge, *final(ppu), *lower_memory) == spec_mem_view(
                *self,
                *cartridge,
                *old(ppu),
                *lower_memory,
            ).read_upd(addr),
            final(ppu).chr_rom == old(ppu).chr_rom,
    {
        if addr < 0x2000 {
            let a = addr % 0x800;
            if a < 0x100 {
                lower_memory.zero_page[a as usize]
            } else if a < 0x200 {
                lower_memory.stack[(a - 0x100) as usize]
            } else {
                lower_memory.ram[(a - 0x200) as usize]
            }
        } else if addr < 0x4000 {
            ppu.read_register(((addr - 0x2000) % 8) as usize)
        } else if addr < 0x8000 {
            // APU window (write-only), expansion and battery-backed ranges
            0
        } else if addr < 0xC000 {
            cartridge.read_prg_rom(self.active_prgbank_number_lower, addr - 0x8000)
        } else {
            cartridge.read_prg_rom(self.active_prgbank_number_upper, addr - 0xC000)
        }
    }

    /// Resolves a CPU write of `value` to `addr` against the canonical memory
    /// map.  Writes to the reserved and battery-backed ranges and to the
    /// cartridge ROM are ignored; mapper 0 has no bank switching.
    pub fn write_request(
        &mut self,
        ppu: &mut PPU,
        addr: u16,
        value: u8,
        lower_memory: &mut LowerMemory,
        apu: &mut APU,
    )
        requires
            old(ppu).wf(),
            old(lower_memory).wf(),
            old(apu).wf(),
        ensures
            final(ppu).wf(),
            final(lower_memory).wf(),
            final(apu).wf(),
            *final(self) == *old(self),
            final(ppu).chr_rom == old(ppu).chr_rom,
            forall|cartridge: Cartridge|
                spec_mem_view(*old(self), cartridge, *final(ppu), *final(lower_memory))
                    == spec_mem_view(*old(self), cartridge, *old(ppu), *old(lower_memory)).write(
                    addr,
                    value,
                ),
            final(apu).registers@ == if 0x4000 <= addr < 0x4018 {
                old(apu).registers@.update(addr - 0x4000, value)
            } else {
                old(apu).registers@
            },
    {
        if addr < 0x2000 {
            let a = addr % 0x800;
            if a < 0x100 {
                lower_memory.zero_page[a as usize] = value;
            } else if a < 0x200 {
                lower_memory.stack[(a - 0x100) as usize] = value;
            } else {
                lower_memory.ram[(a - 0x200) as usize] = value;
            }
        } else if addr < 0x4000 {
            ppu.write_register(((addr - 0x2000) % 8) as usize, value);
        } else if addr < 0x4018 {
            apu.write((addr - 0x4000) as usize, value);
        } else {
            // Reserved, battery-backed, and ROM ranges: the write is ignored.
        }
    }
}

} // verus!
