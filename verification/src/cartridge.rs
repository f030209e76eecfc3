//! The cartridge: owned PRG and CHR banks plus header metadata.
use crate::rom_parser::{MirrorType, RomParser};
use vstd::prelude::*;

verus! {

pub struct Cartridge {
    // from iNES header
    pub num_prg_banks: u8,
    pub num_chr_banks: u8,
    pub mapper_num: u8,
    pub mirror_type: MirrorType,
    pub has_battery: bool,
    pub has_trainer: bool,
    // cartridge ROM of PRG/CHR
    pub prg_rom: Vec<Vec<u8>>,
    pub chr_rom: Vec<Vec<u8>>,
}

impl Cartridge {
    /// The program banks as plain byte sequences.
    pub open spec fn prg(&self) -> Seq<Seq<u8>> {
        self.prg_rom@.map_values(|b: Vec<u8>| b@)
    }

    /// The character banks as plain byte sequences.
    pub open spec fn chr(&self) -> Seq<Seq<u8>> {
        self.chr_rom@.map_values(|b: Vec<u8>| b@)
    }

    /// At least one 16 KiB PRG bank and one 8 KiB CHR bank, with the header
    /// count naming the PRG banks actually held.
    pub open spec fn wf(&self) -> bool {
        &&& self.prg_rom@.len() == self.num_prg_banks as int
        &&& self.num_prg_banks >= 1
        &&& forall|i: int|
            0 <= i < self.prg_rom@.len() ==> #[trigger] self.prg_rom@[i]@.len() == 16384
        &&& self.chr_rom@.len() >= 1
        &&& forall|i: int|
            0 <= i < self.chr_rom@.len() ==> #[trigger] self.chr_rom@[i]@.len() == 8192
    }

    /// Takes over the banks of a parser that accepted an image.
    pub fn new_with_parser(rom_parser: RomParser) -> (r: Cartridge)
        requires
            rom_parser.prg_rom@.len() == rom_parser.header.prg_rom_size as int,
            rom_parser.header.prg_rom_size >= 1,
            forall|i: int|
                0 <= i < rom_parser.prg_rom@.len() ==> #[trigger] rom_parser.prg_rom@[i]@.len()
                    == 16384,
            rom_parser.chr_rom@.len() >= 1,
            forall|i: int|
                0 <= i < rom_parser.chr_rom@.len() ==> #[trigger] rom_parser.chr_rom@[i]@.len()
                    == 8192,
        ensures
            r.wf(),
            r.num_prg_banks == rom_parser.header.prg_rom_size,
            r.num_chr_banks == rom_parser.header.chr_rom_size,
            r.mapper_num == rom_parser.header.mapper,
            r.mirror_type == rom_parser.header.mirroring,
            r.has_battery == rom_parser.header.battery_prg_ram,
            r.has_trainer == rom_parser.header.trainer,
            r.prg_rom == rom_parser.prg_rom,
            r.chr_rom == rom_parser.chr_rom,
    {
        Cartridge {
            num_prg_banks: rom_parser.header.prg_rom_size,
            num_chr_banks: rom_parser.header.chr_rom_size,
            mapper_num: rom_parser.header.mapper,
            mirror_type: rom_parser.header.mirroring,
            has_battery: rom_parser.header.battery_prg_ram,
            has_trainer: rom_parser.header.trainer,
            prg_rom: rom_parser.prg_rom,
            chr_rom: rom_parser.chr_rom,
        }
    }

    /// A blank mapper-0 cartridge: two zeroed PRG banks, one zeroed CHR bank.
    pub fn new() -> (r: Cartridge)
        ensures
            r.wf(),
            r.num_prg_banks == 2,
            r.prg_rom@.len() == 2,
            forall|i: int, j: int|
                0 <= i < 2 && 0 <= j < 16384 ==> r.prg()[i][j] == 0u8,
            r.chr_rom@.len() == 1,
            r.chr()[0] == Seq::new(8192, |i: int| 0u8),
    {
        let mut prg_rom: Vec<Vec<u8>> = Vec::new();
        prg_rom.push(crate::common::zero_vec(16384));
        prg_rom.push(crate::common::zero_vec(16384));
        let mut chr_rom: Vec<Vec<u8>> = Vec::new();
        chr_rom.push(crate::common::zero_vec(8192));
        Cartridge {
            num_prg_banks: 2,
            num_chr_banks: 0,
            mapper_num: 0,
            mirror_type: MirrorType::HORIZONTAL,
            has_battery: false,
            has_trainer: false,
            prg_rom,
            chr_rom,
        }
    }

    /// A cartridge built from a fixed 32 KiB program image, split into banks 0
    /// and 1.
    pub fn new_with_custom_rom(rom: Vec<u8>) -> (r: Cartridge)
        requires
            rom@.len() == 32768,
        ensures
            r.wf(),
            r.num_prg_banks == 2,
            r.prg_rom@.len() == 2,
            r.prg()[0] == rom@.subrange(0, 16384),
            r.prg()[1] == rom@.subrange(16384, 32768),
            r.chr_rom@.len() == 1,
            r.chr()[0] == Seq::new(8192, |i: int| 0u8),
    {
        let mut cartridge = Cartridge::new();
        let bank0 = crate::common::copy_range(&rom, 0, 16384);
        let bank1 = crate::common::copy_range(&rom, 16384, 16384);
        cartridge.prg_rom[0] = bank0;
        cartridge.prg_rom[1] = bank1;
        cartridge
    }

    /// The byte at `addr` of PRG bank `num_bank`.
    pub fn read_prg_rom(&self, num_bank: u8, addr: u16) -> (r: u8)
        requires
            self.wf(),
            (num_bank as int) < self.prg_rom@.len(),
            addr < 16384,
        ensures
            r == self.prg()[num_bank as int][addr as int],
    {
        let bank = &self.prg_rom[num_bank as usize];
        bank[addr as usize]
    }

    /// Overwrites the byte at `addr` of PRG bank `num_bank`; kept for test
    /// harness symmetry, a real mapper-0 cartridge would refuse.
    pub fn write_prg_rom(&mut self, num_bank: u8, addr: u16, value: u8)
        requires
            old(self).wf(),
            (num_bank as int) < old(self).prg_rom@.len(),
            addr < 16384,
        ensures
            final(self).wf(),
            final(self).prg() == old(self).prg().update(
                num_bank as int,
                old(self).prg()[num_bank as int].update(addr as int, value),
            ),
            final(self).chr_rom == old(self).chr_rom,
            final(self).num_prg_banks == old(self).num_prg_banks,
            final(self).num_chr_banks == old(self).num_chr_banks,
            final(self).mapper_num == old(self).mapper_num,
            final(self).mirror_type == old(self).mirror_type,
    {
        let bank = &mut self.prg_rom[num_bank as usize];
        bank[addr as usize] = value;
        assert(self.prg() =~~= old(self).prg().update(
            num_bank as int,
            old(self).prg()[num_bank as int].update(addr as int, value),
        ));
    }
}

} // verus!
