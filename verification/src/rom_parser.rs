//! Parser for the iNES cartridge file format.
//!
//! An image is a 16-byte header, then `prg_rom_size` banks of 16 KiB program
//! ROM, then `chr_rom_size` banks of 8 KiB character ROM.  Only mapper 0 and
//! the plain iNES format (no NES 2.0, no trainer) are accepted.
use crate::common::CoreError;
use vstd::prelude::*;

verus! {

pub const PRG_BANK_SIZE: usize = 16384;

pub const CHR_BANK_SIZE: usize = 8192;

pub const HEADER_SIZE: usize = 16;

/// The decoded iNES header.
#[derive(Clone, Copy, Debug)]
pub struct Header {
    /// Program ROM size in 16 KiB banks.
    pub prg_rom_size: u8,
    /// Character ROM size in 8 KiB banks.
    pub chr_rom_size: u8,
    /// Mapper number; only 0 is accepted.
    pub mapper: u8,
    // Flags 6
    pub mirroring: MirrorType,
    pub battery_prg_ram: bool,
    pub trainer: bool,
    pub ignore_mirroring_control: bool,
    // Flags 7
    pub vs_unit_system: bool,
    pub play_choise_10: bool,
    pub nes2_format: bool,
    // Flags 8
    pub prg_ram_size: u8,
    // Flags 9
    pub flags9_tv_system: TVSystem,
    // Flags 10
    pub flags10_tv_system: TVSystem,
    pub prg_ram_not_present: bool,
    pub bus_conflicts: bool,
}

#[derive(Clone, Copy, Debug, PartialEq, Eq, Structural, Default)]
pub enum TVSystem {
    #[default]
    NTSC,
    PAL,
    DUAL,
}

#[derive(Clone, Copy, Debug, PartialEq, Eq, Structural, Default)]
pub enum MirrorType {
    #[default]
    HORIZONTAL,
    VERTICAL,
}

/// The mapper id encoded by flags 6 and 7.
pub open spec fn spec_mapper(c: Seq<u8>) -> u8 {
    (c[7] & 0xF0u8) | (c[6] >> 4u8)
}

/// The number of bytes an image with this header must hold: header, PRG banks,
/// CHR banks.
pub open spec fn spec_expected_len(c: Seq<u8>) -> int {
    16 + c[4] * 16384 + c[5] * 8192
}

/// The header an accepted image decodes to.
pub open spec fn spec_header(c: Seq<u8>) -> Header {
    Header {
        prg_rom_size: c[4],
        chr_rom_size: c[5],
        mapper: spec_mapper(c),
        mirroring: if c[6] & 1 == 1 {
            MirrorType::VERTICAL
        } else {
            MirrorType::HORIZONTAL
        },
        battery_prg_ram: (c[6] >> 1u8) & 1 == 1,
        trainer: (c[6] >> 2u8) & 1 == 1,
        ignore_mirroring_control: (c[6] >> 3u8) & 1 == 1,
        vs_unit_system: c[7] & 1 == 1,
        play_choise_10: (c[7] >> 1u8) & 1 == 1,
        nes2_format: (c[7] >> 2u8) & 3 == 2,
        prg_ram_size: c[8],
        flags9_tv_system: if c[9] & 1 == 1 {
            TVSystem::PAL
        } else {
            TVSystem::NTSC
        },
        flags10_tv_system: if c[10] & 3 == 0 {
            TVSystem::NTSC
        } else if c[10] & 3 == 2 {
            TVSystem::PAL
        } else {
            TVSystem::DUAL
        },
        prg_ram_not_present: (c[10] >> 4u8) == 1,
        bus_conflicts: (c[10] >> 5u8) == 1,
    }
}

/// The first rejection an image earns, in the order the checks run, or `None`
/// for an accepted image.
pub open spec fn spec_parse_error(c: Seq<u8>) -> Option<CoreError> {
    if c.len() < 16 {
        Some(CoreError::Truncated)
    } else if !(c[0] == 0x4Eu8 && c[1] == 0x45u8 && c[2] == 0x53u8 && c[3] == 0x1Au8) {
        Some(CoreError::BadMagic)
    } else if !(c[11] == 0u8 && c[12] == 0u8 && c[13] == 0u8 && c[14] == 0u8 && c[15] == 0u8) {
        Some(CoreError::BadPadding)
    } else if (c[7] >> 2u8) & 3 == 2 || (c[6] >> 2u8) & 1 == 1 || c[4] == 0 {
        Some(CoreError::UnsupportedFormat)
    } else if spec_mapper(c) != 0 {
        Some(CoreError::UnsupportedMapper)
    } else if c.len() != spec_expected_len(c) {
        Some(CoreError::Truncated)
    } else {
        None
    }
}

/// An image the parser accepts.
pub open spec fn spec_parse_ok(c: Seq<u8>) -> bool {
    spec_parse_error(c) is None
}

/// The bytes of PRG bank `i` of an accepted image.
pub open spec fn spec_prg_bank(c: Seq<u8>, i: int) -> Seq<u8> {
    c.subrange(16 + i * 16384, 16 + (i + 1) * 16384)
}

/// The bytes of CHR bank `i` of an accepted image.
pub open spec fn spec_chr_bank(c: Seq<u8>, i: int) -> Seq<u8> {
    c.subrange(16 + c[4] * 16384 + i * 8192, 16 + c[4] * 16384 + (i + 1) * 8192)
}

/// The number of CHR banks the parser produces: one zero-filled bank stands in
/// when the image carries none.
pub open spec fn spec_chr_count(c: Seq<u8>) -> int {
    if c[5] == 0 {
        1
    } else {
        c[5] as int
    }
}

#[derive(Debug)]
pub struct RomParser {
    pub header: Header,
    pub prg_rom: Vec<Vec<u8>>,
    pub chr_rom: Vec<Vec<u8>>,
    /// The 16 raw header bytes, kept so an image can be re-serialised.
    pub header_bytes: Vec<u8>,
}

/// What `parse_bytes` guarantees of a parser that accepted image `c`.
pub open spec fn spec_parsed(p: RomParser, c: Seq<u8>) -> bool {
    &&& p.header == spec_header(c)
    &&& p.header_bytes@ == c.take(16)
    &&& p.prg_rom@.len() == c[4] as int
    &&& forall|i: int|
        0 <= i < c[4] as int ==> #[trigger] p.prg_rom@[i]@ == spec_prg_bank(c, i)
    &&& p.chr_rom@.len() == spec_chr_count(c)
    &&& c[5] == 0 ==> p.chr_rom@[0]@ == Seq::new(8192, |j: int| 0u8)
    &&& forall|i: int|
        0 <= i < c[5] as int ==> #[trigger] p.chr_rom@[i]@ == spec_chr_bank(c, i)
}

impl RomParser {
    /// An empty parser; `parse_bytes` fills it.
    pub fn new() -> (r: RomParser)
        ensures
            r.prg_rom@.len() == 0,
            r.chr_rom@.len() == 0,
    {
        RomParser {
            header: Header {
                prg_rom_size: 0,
                chr_rom_size: 0,
                mapper: 0,
                mirroring: MirrorType::HORIZONTAL,
                battery_prg_ram: false,
                trainer: false,
                ignore_mirroring_control: false,
                vs_unit_system: false,
                play_choise_10: false,
                nes2_format: false,
                prg_ram_size: 0,
                flags9_tv_system: TVSystem::NTSC,
                flags10_tv_system: TVSystem::NTSC,
                prg_ram_not_present: false,
                bus_conflicts: false,
            },
            prg_rom: Vec::new(),
            chr_rom: Vec::new(),
            header_bytes: Vec::new(),
        }
    }

    /// Decodes a whole iNES image.  Returns the first rejection the image
    /// earns, and leaves the parser untouched on any rejection.
    pub fn parse_bytes(&mut self, contents: &Vec<u8>) -> (r: Result<(), CoreError>)
        ensures
            match r {
                Ok(()) => spec_parse_ok(contents@) && spec_parsed(*final(self), contents@),
                Err(e) => Some(e) == spec_parse_error(contents@) && *final(self) == *old(self),
            },
    {
        let checked = Self::check_image(contents);
        match checked {
            Some(e) => Err(e),
            None => {
                self.parse_header(contents);
                self.parse_prg_rom(contents);
                self.parse_chr_rom(contents);
                Ok(())
            },
        }
    }

    /// Runs every acceptance check of `spec_parse_error` in order.
    fn check_image(contents: &Vec<u8>) -> (r: Option<CoreError>)
        ensures
            r == spec_parse_error(contents@),
    {
        let c = contents;
        if c.len() < 16 {
            return Some(CoreError::Truncated);
        }
        if !(c[0] == 0x4E && c[1] == 0x45 && c[2] == 0x53 && c[3] == 0x1A) {
            return Some(CoreError::BadMagic);
        }
        if !(c[11] == 0 && c[12] == 0 && c[13] == 0 && c[14] == 0 && c[15] == 0) {
            return Some(CoreError::BadPadding);
        }
        if (c[7] >> 2u8) & 3 == 2 || (c[6] >> 2u8) & 1 == 1 || c[4] == 0 {
            return Some(CoreError::UnsupportedFormat);
        }
        if (c[7] & 0xF0) | (c[6] >> 4u8) != 0 {
            return Some(CoreError::UnsupportedMapper);
        }
        let expected: usize = 16 + (c[4] as usize) * 16384 + (c[5] as usize) * 8192;
        if c.len() != expected {
            return Some(CoreError::Truncated);
        }
        None
    }

    /// Decodes the 16 header bytes into `self.header` and keeps a raw copy.
    fn parse_header(&mut self, contents: &Vec<u8>)
        requires
            contents@.len() >= 16,
        ensures
            final(self).header == spec_header(contents@),
            final(self).header_bytes@ == contents@.take(16),
            final(self).prg_rom == old(self).prg_rom,
            final(self).chr_rom == old(self).chr_rom,
    {
        let c = contents;
        let flags6 = c[6];
        let flags7 = c[7];
        let flags9 = c[9];
        let flags10 = c[10];
        self.header = Header {
            prg_rom_size: c[4],
            chr_rom_size: c[5],
            mapper: (flags7 & 0xF0) | (flags6 >> 4u8),
            mirroring: if flags6 & 1 == 1 {
                MirrorType::VERTICAL
            } else {
                MirrorType::HORIZONTAL
            },
            battery_prg_ram: (flags6 >> 1u8) & 1 == 1,
            trainer: (flags6 >> 2u8) & 1 == 1,
            ignore_mirroring_control: (flags6 >> 3u8) & 1 == 1,
            vs_unit_system: flags7 & 1 == 1,
            play_choise_10: (flags7 >> 1u8) & 1 == 1,
            nes2_format: (flags7 >> 2u8) & 3 == 2,
            prg_ram_size: c[8],
            flags9_tv_system: if flags9 & 1 == 1 {
                TVSystem::PAL
            } else {
                TVSystem::NTSC
            },
            flags10_tv_system: if flags10 & 3 == 0 {
                TVSystem::NTSC
            } else if flags10 & 3 == 2 {
                TVSystem::PAL
            } else {
                TVSystem::DUAL
            },
            prg_ram_not_present: (flags10 >> 4u8) == 1,
            bus_conflicts: (flags10 >> 5u8) == 1,
        };
        self.header_bytes = crate::common::copy_range(contents, 0, 16);
        assert(self.header_bytes@ =~= contents@.take(16));
    }

    /// Splits the PRG region of the image into 16 KiB banks.
    fn parse_prg_rom(&mut self, contents: &Vec<u8>)
        requires
            old(self).header.prg_rom_size == contents@[4],
            contents@.len() >= 16 + contents@[4] * 16384,
        ensures
            final(self).prg_rom@.len() == contents@[4] as int,
            forall|i: int|
                0 <= i < contents@[4] as int ==> #[trigger] final(self).prg_rom@[i]@
                    == spec_prg_bank(contents@, i),
            final(self).header == old(self).header,
            final(self).header_bytes == old(self).header_bytes,
            final(self).chr_rom == old(self).chr_rom,
    {
        let n = self.header.prg_rom_size as usize;
        let mut banks: Vec<Vec<u8>> = Vec::new();
        let mut i: usize = 0;
        while i < n
            invariant
                i <= n,
                n == contents@[4] as int,
                contents@.len() >= 16 + n * 16384,
                banks@.len() == i as int,
                forall|k: int|
                    0 <= k < i as int ==> #[trigger] banks@[k]@ == spec_prg_bank(contents@, k),
            decreases n - i,
        {
            let bank = crate::common::copy_range(contents, 16 + i * 16384, 16384);
            banks.push(bank);
            assert(banks@[i as int]@ =~= spec_prg_bank(contents@, i as int));
            i = i + 1;
        }
        self.prg_rom = banks;
    }

    /// Splits the CHR region of the image into 8 KiB banks; an image with no
    /// CHR data gets one zero-filled bank.
    fn parse_chr_rom(&mut self, contents: &Vec<u8>)
        requires
            old(self).header.prg_rom_size == contents@[4],
            old(self).header.chr_rom_size == contents@[5],
            contents@.len() >= 16 + contents@[4] * 16384 + contents@[5] * 8192,
        ensures
            final(self).chr_rom@.len() == spec_chr_count(contents@),
            contents@[5] == 0 ==> final(self).chr_rom@[0]@ == Seq::new(8192, |j: int| 0u8),
            forall|i: int|
                0 <= i < contents@[5] as int ==> #[trigger] final(self).chr_rom@[i]@
                    == spec_chr_bank(contents@, i),
            final(self).header == old(self).header,
            final(self).header_bytes == old(self).header_bytes,
            final(self).prg_rom == old(self).prg_rom,
    {
        let n = self.header.chr_rom_size as usize;
        let prg_bytes = (self.header.prg_rom_size as usize) * 16384;
        let mut banks: Vec<Vec<u8>> = Vec::new();
        if n == 0 {
            banks.push(crate::common::zero_vec(8192));
            self.chr_rom = banks;
            return ;
        }
        let mut i: usize = 0;
        while i < n
            invariant
                i <= n,
                n == contents@[5] as int,
                prg_bytes == contents@[4] * 16384,
                contents@.len() >= 16 + prg_bytes + n * 8192,
                banks@.len() == i as int,
                forall|k: int|
                    0 <= k < i as int ==> #[trigger] banks@[k]@ == spec_chr_bank(contents@, k),
            decreases n - i,
        {
            let bank = crate::common::copy_range(contents, 16 + prg_bytes + i * 8192, 8192);
            banks.push(bank);
            assert(banks@[i as int]@ =~= spec_chr_bank(contents@, i as int));
            i = i + 1;
        }
        self.chr_rom = banks;
    }
}

/// Consecutive fixed-size chunks of an image, concatenated, give back the
/// region they were cut from.
proof fn lemma_flatten_chunks(c: Seq<u8>, banks: Seq<Seq<u8>>, start: int, size: int)
    requires
        size >= 0,
        0 <= start,
        start + banks.len() * size <= c.len(),
        forall|i: int|
            0 <= i < banks.len() ==> #[trigger] banks[i] == c.subrange(
                start + i * size,
                start + (i + 1) * size,
            ),
    ensures
        banks.flatten() == c.subrange(start, start + banks.len() * size),
    decreases banks.len(),
{
    if banks.len() == 0 {
        assert(banks.flatten() =~= c.subrange(start, start));
    } else {
        let rest = banks.drop_first();
        assert forall|i: int| 0 <= i < rest.len() implies #[trigger] rest[i] == c.subrange(
            (start + size) + i * size,
            (start + size) + (i + 1) * size,
        ) by {
            assert(banks[i + 1] == c.subrange(start + (i + 1) * size, start + (i + 2) * size));
            assert((start + size) + i * size == start + (i + 1) * size) by (nonlinear_arith);
            assert((start + size) + (i + 1) * size == start + (i + 2) * size) by (nonlinear_arith);
        }
        assert((start + size) + rest.len() * size == start + banks.len() * size)
            by (nonlinear_arith)
            requires
                rest.len() + 1 == banks.len(),
        ;
        lemma_flatten_chunks(c, rest, start + size, size);
        assert(banks[0] == c.subrange(start, start + size));
        assert(banks.flatten() == banks.first() + rest.flatten());
        assert(banks.flatten() =~= c.subrange(start, start + banks.len() * size));
    }
}

/// Round trip: an accepted image whose header names at least one CHR bank is
/// re-serialised exactly by concatenating the 16 raw header bytes, the PRG
/// banks and the CHR banks of its parser.  (An image with no CHR data gains
/// one synthesised zero bank, which this concatenation would append.)
pub proof fn lemma_ines_round_trip(p: RomParser, c: Seq<u8>)
    requires
        spec_parse_ok(c),
        spec_parsed(p, c),
        c[5] >= 1,
    ensures
        p.header_bytes@ + p.prg_rom@.map_values(|b: Vec<u8>| b@).flatten() + p.chr_rom@.map_values(
            |b: Vec<u8>| b@,
        ).flatten() == c,
{
    let prg_banks = p.prg_rom@.map_values(|b: Vec<u8>| b@);
    let chr_banks = p.chr_rom@.map_values(|b: Vec<u8>| b@);
    let prg_bytes = c[4] * 16384;
    let chr_bytes = c[5] * 8192;
    assert forall|i: int| 0 <= i < prg_banks.len() implies #[trigger] prg_banks[i] == c.subrange(
        16 + i * 16384,
        16 + (i + 1) * 16384,
    ) by {
        assert(p.prg_rom@[i]@ == spec_prg_bank(c, i));
    }
    lemma_flatten_chunks(c, prg_banks, 16, 16384);
    assert forall|i: int| 0 <= i < chr_banks.len() implies #[trigger] chr_banks[i] == c.subrange(
        (16 + prg_bytes) + i * 8192,
        (16 + prg_bytes) + (i + 1) * 8192,
    ) by {
        assert(p.chr_rom@[i]@ == spec_chr_bank(c, i));
    }
    lemma_flatten_chunks(c, chr_banks, 16 + prg_bytes, 8192);
    assert(p.header_bytes@ + prg_banks.flatten() + chr_banks.flatten() =~= c);
}

} // verus!
