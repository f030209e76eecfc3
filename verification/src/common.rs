//! Single-bit manipulation of a packed byte of flags.
use vstd::prelude::*;

verus! {

/// Value of bit `bit` (0 = least significant) of `flags`.
pub open spec fn spec_get_bit(flags: u8, bit: u8) -> bool {
    flags & (1u8 << bit) != 0
}

/// `flags` with bit `bit` forced to `value`, all other bits unchanged.
pub open spec fn spec_set_bit(flags: u8, bit: u8, value: bool) -> u8 {
    if value {
        flags | (1u8 << bit)
    } else {
        flags & !(1u8 << bit)
    }
}

/// Writes bit `bit` of `*flags` to `value` without touching the other bits.
pub fn set(flags: &mut u8, bit: u8, value: bool)
    requires
        bit < 8,
    ensures
        *final(flags) == spec_set_bit(*old(flags), bit, value),
{
    if value {
        *flags = *flags | (1u8 << bit);
    } else {
        *flags = *flags & !(1u8 << bit);
    }
}

/// Reads bit `bit` of `flags`.
pub fn get(flags: u8, bit: u8) -> (r: bool)
    requires
        bit < 8,
    ensures
        r == spec_get_bit(flags, bit),
{
    flags & (1u8 << bit) != 0
}

/// The error kinds the core surfaces.  Parse errors are recoverable by the
/// caller; the rest are fatal to a running machine.
#[derive(Clone, Copy, Debug, PartialEq, Eq, Structural)]
pub enum CoreError {
    /// The image does not begin with the iNES magic bytes.
    BadMagic,
    /// Header bytes 11..=15 are not all zero.
    BadPadding,
    /// The byte count of the image does not match the header-derived total.
    Truncated,
    /// The image is NES 2.0, or carries a trainer, which the core rejects.
    UnsupportedFormat,
    /// The image names a mapper other than mapper 0.
    UnsupportedMapper,
    /// The byte at the program counter is not a documented opcode.
    UnknownOpcode(u8),
    /// The decoder and the executor disagree about an addressing mode.
    IllegalAddressingModeForInstruction,
    /// A bank-indexed access named a bank the cartridge does not have.
    BankIndexOutOfRange,
}

/// A vector of `n` zero bytes.
pub fn zero_vec(n: usize) -> (v: Vec<u8>)
    ensures
        v@ == Seq::new(n as nat, |i: int| 0u8),
{
    let mut v: Vec<u8> = Vec::new();
    while v.len() < n
        invariant
            v@ =~= Seq::new(v.len() as nat, |i: int| 0u8),
            v.len() <= n,
        decreases n - v.len(),
    {
        v.push(0u8);
    }
    assert(v@ =~= Seq::new(n as nat, |i: int| 0u8));
    v
}

/// A fresh vector with the same bytes as `src`.
pub fn copy_bytes(src: &Vec<u8>) -> (v: Vec<u8>)
    ensures
        v@ == src@,
{
    let mut v: Vec<u8> = Vec::new();
    let mut i: usize = 0;
    while i < src.len()
        invariant
            i <= src.len(),
            v@ =~= src@.take(i as int),
        decreases src.len() - i,
    {
        v.push(src[i]);
        i = i + 1;
    }
    assert(v@ =~= src@);
    v
}

/// A fresh vector holding `src[start..start + len]`.
pub fn copy_range(src: &Vec<u8>, start: usize, len: usize) -> (v: Vec<u8>)
    requires
        start + len <= src.len(),
    ensures
        v@ == src@.subrange(start as int, start as int + len as int),
{
    let mut v: Vec<u8> = Vec::new();
    let mut i: usize = 0;
    while i < len
        invariant
            i <= len,
            start + len <= src.len(),
            v@ =~= src@.subrange(start as int, start as int + i as int),
        decreases len - i,
    {
        v.push(src[start + i]);
        i = i + 1;
    }
    assert(v@ =~= src@.subrange(start as int, start as int + len as int));
    v
}

/// Setting a bit and reading it back yields the written value; other bits keep
/// their old value.
pub proof fn lemma_set_get_bit(flags: u8, bit: u8, value: bool, other: u8)
    requires
        bit < 8,
        other < 8,
    ensures
        spec_get_bit(spec_set_bit(flags, bit, value), bit) == value,
        other != bit ==> spec_get_bit(spec_set_bit(flags, bit, value), other) == spec_get_bit(
            flags,
            other,
        ),
{
    assert(bit < 8 && other < 8 ==> (spec_get_bit(spec_set_bit(flags, bit, value), bit) == value
        && (other != bit ==> spec_get_bit(spec_set_bit(flags, bit, value), other) == spec_get_bit(
        flags,
        other,
    )))) by (bit_vector);
}

} // verus!
