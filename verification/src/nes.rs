//! The machine: wires a cartridge into PPU, APU, MMU and CPU, and exposes the
//! single-instruction `tick` through `cpu.clock_tick`.
use crate::apu::apu::APU;
use crate::cartridge::Cartridge;
use crate::common::CoreError;
use crate::cpu::cpu::CPU;
use crate::cpu::model::{spec_res_interrupt, MachineView, MemView};
use crate::mmu::MMU;
use crate::ppu::ppu::PPU;
use crate::rom_parser::{
    spec_chr_bank, spec_parse_error, spec_parse_ok, spec_prg_bank, RomParser,
};
use vstd::prelude::*;

verus! {

pub struct NES {
    pub cpu: CPU,
}

/// The machine state a freshly wired cartridge boots from, before the reset
/// entry point runs: given the program banks, the first character bank and
/// the bank count, everything else is zeroed (the unused status bit at 1) and
/// the upper PRG half mirrors bank 0 for a single-bank cartridge.
pub open spec fn spec_boot_view(prg: Seq<Seq<u8>>, chr0: Seq<u8>, num_prg_banks: int)
    -> MachineView {
    MachineView {
        a: 0,
        x: 0,
        y: 0,
        s: 0,
        p: 0x20,
        pc: 0,
        cycles: 0,
        mem: MemView {
            zp: Seq::new(0x100, |i: int| 0u8),
            stack: Seq::new(0x100, |i: int| 0u8),
            ram: Seq::new(0x600, |i: int| 0u8),
            ppu: Seq::new(8, |i: int| 0u8),
            prg: prg,
            lo: 0,
            hi: if num_prg_banks == 1 {
                0
            } else {
                1
            },
        },
        apu: Seq::new(24, |i: int| 0u8),
        chr: chr0,
    }
}

impl NES {
    /// Wires the cartridge into fresh components and takes the reset entry
    /// point.
    pub fn new(cartridge: Cartridge) -> (r: NES)
        requires
            cartridge.wf(),
        ensures
            r.cpu.wf(),
            r.cpu@ == spec_res_interrupt(
                spec_boot_view(
                    cartridge.prg(),
                    cartridge.chr()[0],
                    cartridge.num_prg_banks as int,
                ),
            ),
    {
        let ppu: PPU = PPU::new(&cartridge);
        let apu: APU = APU::new();
        let mmu: MMU = MMU::new(&cartridge);
        proof {
            assert(CPU::spec_initial_view(mmu, cartridge, ppu, apu) =~= spec_boot_view(
                cartridge.prg(),
                cartridge.chr()[0],
                cartridge.num_prg_banks as int,
            ));
        }
        let cpu: CPU = CPU::new(mmu, cartridge, ppu, apu);
        NES { cpu }
    }

    /// A machine booted from a whole iNES image; parse rejections come back
    /// exactly as the parser gives them.
    pub fn new_from_ines_bytes(bytes: &Vec<u8>) -> (r: Result<NES, CoreError>)
        ensures
            match r {
                Ok(nes) => {
                    &&& spec_parse_ok(bytes@)
                    &&& nes.cpu.wf()
                    &&& nes.cpu@ == spec_res_interrupt(
                        spec_boot_view(
                            Seq::new(bytes@[4] as nat, |i: int| spec_prg_bank(bytes@, i)),
                            if bytes@[5] == 0 {
                                Seq::new(8192, |j: int| 0u8)
                            } else {
                                spec_chr_bank(bytes@, 0)
                            },
                            bytes@[4] as int,
                        ),
                    )
                },
                Err(e) => Some(e) == spec_parse_error(bytes@),
            },
    {
        let mut rom_parser = RomParser::new();
        match rom_parser.parse_bytes(bytes) {
            Err(e) => Err(e),
            Ok(()) => {
                let cartridge: Cartridge = Cartridge::new_with_parser(rom_parser);
                proof {
                    assert(cartridge.prg() =~= Seq::new(
                        bytes@[4] as nat,
                        |i: int| spec_prg_bank(bytes@, i),
                    ));
                    assert(cartridge.chr()[0] =~= if bytes@[5] == 0 {
                        Seq::new(8192, |j: int| 0u8)
                    } else {
                        spec_chr_bank(bytes@, 0)
                    });
                }
                Ok(NES::new(cartridge))
            },
        }
    }

    /// A machine booted from a fixed 32 KiB program image, split into PRG
    /// banks 0 and 1.
    pub fn new_custom_prg_rom(prg_rom: Vec<u8>) -> (r: NES)
        requires
            prg_rom@.len() == 32768,
        ensures
            r.cpu.wf(),
            r.cpu@ == spec_res_interrupt(
                spec_boot_view(
                    seq![prg_rom@.subrange(0, 16384), prg_rom@.subrange(16384, 32768)],
                    Seq::new(8192, |j: int| 0u8),
                    2,
                ),
            ),
    {
        let cartridge: Cartridge = Cartridge::new_with_custom_rom(prg_rom);
        proof {
            assert(cartridge.prg().len() == 2);
            assert(cartridge.prg()[0] == prg_rom@.subrange(0, 16384));
            assert(cartridge.prg()[1] == prg_rom@.subrange(16384, 32768));
            assert(cartridge.prg() =~= seq![
                prg_rom@.subrange(0, 16384),
                prg_rom@.subrange(16384, 32768),
            ]);
            assert(cartridge.chr()[0] =~= Seq::new(8192, |j: int| 0u8));
        }
        NES::new(cartridge)
    }
}

} // verus!
