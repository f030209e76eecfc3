//! The instruction decoder: one byte of opcode to the full decoded row.
//!
//! Each documented opcode maps to its mnemonic, addressing mode, byte length,
//! base cycle count, "oops"-cycle class and advisory status-flag effect.
//! Undocumented opcodes are rejected as `UnknownOpcode`.
use crate::common::CoreError;
use vstd::prelude::*;

verus! {

/// All documented CPU instructions, named as in 6502 assembler.
#[derive(Clone, Copy, Debug, PartialEq, Eq, Structural)]
pub enum Instructions {
    ADC,
    AND,
    ASL,
    BCC,
    BCS,
    BEQ,
    BIT,
    BMI,
    BNE,
    BPL,
    BRK,
    BVC,
    BVS,
    CLC,
    CLD,
    CLI,
    CLV,
    CMP,
    CPX,
    CPY,
    DEC,
    DEX,
    DEY,
    EOR,
    INC,
    INX,
    INY,
    JMP,
    JSR,
    LDA,
    LDX,
    LDY,
    LSR,
    NOP,
    ORA,
    PHA,
    PHP,
    PLA,
    PLP,
    ROL,
    ROR,
    RTI,
    RTS,
    SBC,
    SEC,
    SED,
    SEI,
    STA,
    STX,
    STY,
    TAX,
    TAY,
    TSX,
    TXA,
    TXS,
    TYA,
}

/// How an instruction names its operand.
#[derive(Clone, Copy, Debug, PartialEq, Eq, Structural)]
pub enum AddressingMode {
    IMPLIED,
    ABSOLUTE,
    ABSOLUTEX,
    ABSOLUTEY,
    ZEROPAGE,
    ZEROPAGEX,
    ZEROPAGEY,
    RELATIVE,
    ACCUMULATOR,
    INDIRECT,
    INDIRECTX,
    INDIRECTY,
    IMMEDIATE,
}

/// Whether an instruction can take extra cycles: none, one on a crossed page
/// boundary, or one or two on a taken branch.
#[derive(Clone, Copy, Debug, PartialEq, Eq, Structural)]
pub enum OopsCycle {
    NONE,
    PageBoundryCrossed,
    BranchOccursOn,
}

/// How one status bit is affected by an instruction: untouched, modified from
/// the result, forced set or cleared, copied from memory bit 6 or 7, or
/// restored from the stack.
#[derive(Clone, Copy, Debug, PartialEq, Eq, Structural)]
pub enum ProcessorStatusRegisterBitChanges {
    NotModified,
    MODIFIED,
    SET,
    CLEARED,
    M6,
    M7,
    FromStack,
}

/// The advisory status-flag effect of an instruction, one entry per named
/// flag.
#[derive(Clone, Copy, Debug, PartialEq, Eq, Structural)]
pub struct PBitflagsChange {
    pub n: ProcessorStatusRegisterBitChanges,
    pub z: ProcessorStatusRegisterBitChanges,
    pub c: ProcessorStatusRegisterBitChanges,
    pub i: ProcessorStatusRegisterBitChanges,
    pub d: ProcessorStatusRegisterBitChanges,
    pub v: ProcessorStatusRegisterBitChanges,
}

/// One decoded row: mnemonic, addressing mode, byte length, base cycles,
/// oops-cycle class, advisory flag effect.
pub type DecodedOp = (Instructions, AddressingMode, u8, u8, OopsCycle, PBitflagsChange);

/// The full decoder table; `None` for undocumented opcodes.
pub open spec fn spec_decode(opcode: u8) -> Option<DecodedOp> {
    if opcode < 0x40 {
        spec_decode_q0(opcode)
    } else if opcode < 0x80 {
        spec_decode_q1(opcode)
    } else if opcode < 0xC0 {
        spec_decode_q2(opcode)
    } else {
        spec_decode_q3(opcode)
    }
}

/// Decodes one opcode byte, or reports it as undocumented.
pub fn decode_opcode(opcode: u8) -> (r: Result<DecodedOp, CoreError>)
    ensures
        match r {
            Ok(d) => spec_decode(opcode) == Some(d),
            Err(e) => spec_decode(opcode) is None && e == CoreError::UnknownOpcode(opcode),
        },
{
    let row = if opcode < 0x40 {
        decode_q0(opcode)
    } else if opcode < 0x80 {
        decode_q1(opcode)
    } else if opcode < 0xC0 {
        decode_q2(opcode)
    } else {
        decode_q3(opcode)
    };
    match row {
        Some(d) => Ok(d),
        None => Err(CoreError::UnknownOpcode(opcode)),
    }
}

/// The decoder rows for opcodes 0x00..=0x3F.
#[verifier::opaque]
pub open spec fn spec_decode_q0(opcode: u8) -> Option<DecodedOp> {
    let nm = ProcessorStatusRegisterBitChanges::NotModified;
    let mo = ProcessorStatusRegisterBitChanges::MODIFIED;
    let st = ProcessorStatusRegisterBitChanges::SET;
    let cl = ProcessorStatusRegisterBitChanges::CLEARED;
    let fs = ProcessorStatusRegisterBitChanges::FromStack;
    let f_none = (PBitflagsChange { n: nm, z: nm, c: nm, i: nm, d: nm, v: nm });
    let f_c1 = (PBitflagsChange { n: nm, z: nm, c: st, i: nm, d: nm, v: nm });
    let f_c0 = (PBitflagsChange { n: nm, z: nm, c: cl, i: nm, d: nm, v: nm });
    let f_i1 = (PBitflagsChange { n: nm, z: nm, c: nm, i: st, d: nm, v: nm });
    let f_i0 = (PBitflagsChange { n: nm, z: nm, c: nm, i: cl, d: nm, v: nm });
    let f_d1 = (PBitflagsChange { n: nm, z: nm, c: nm, i: nm, d: st, v: nm });
    let f_d0 = (PBitflagsChange { n: nm, z: nm, c: nm, i: nm, d: cl, v: nm });
    let f_v0 = (PBitflagsChange { n: nm, z: nm, c: nm, i: nm, d: nm, v: cl });
    let f_nz = (PBitflagsChange { n: mo, z: mo, c: nm, i: nm, d: nm, v: nm });
    let f_nzc = (PBitflagsChange { n: mo, z: mo, c: mo, i: nm, d: nm, v: nm });
    let f_nzcv = (PBitflagsChange { n: mo, z: mo, c: mo, i: nm, d: nm, v: mo });
    let f_0zc = (PBitflagsChange { n: cl, z: mo, c: mo, i: nm, d: nm, v: nm });
    let f_m7m6 = (PBitflagsChange {
        n: ProcessorStatusRegisterBitChanges::M7,
        z: mo,
        c: nm,
        i: nm,
        d: nm,
        v: ProcessorStatusRegisterBitChanges::M6,
    });
    let f_stack = (PBitflagsChange { n: fs, z: fs, c: fs, i: fs, d: fs, v: fs });

    if opcode == 0x00 {
        Some((Instructions::BRK, AddressingMode::IMPLIED, 1, 7, OopsCycle::NONE, f_i1))
    } else if opcode == 0x01 {
        Some((Instructions::ORA, AddressingMode::INDIRECTX, 2, 6, OopsCycle::NONE, f_nz))
    } else if opcode == 0x05 {
        Some((Instructions::ORA, AddressingMode::ZEROPAGE, 2, 3, OopsCycle::NONE, f_nz))
    } else if opcode == 0x06 {
        Some((Instructions::ASL, AddressingMode::ZEROPAGE, 2, 5, OopsCycle::NONE, f_nzc))
    } else if opcode == 0x08 {
        Some((Instructions::PHP, AddressingMode::IMPLIED, 1, 3, OopsCycle::NONE, f_none))
    } else if opcode == 0x09 {
        Some((Instructions::ORA, AddressingMode::IMMEDIATE, 2, 2, OopsCycle::NONE, f_nz))
    } else if opcode == 0x0A {
        Some((Instructions::ASL, AddressingMode::ACCUMULATOR, 1, 2, OopsCycle::NONE, f_nzc))
    } else if opcode == 0x0D {
        Some((Instructions::ORA, AddressingMode::ABSOLUTE, 3, 4, OopsCycle::NONE, f_nz))
    } else if opcode == 0x0E {
        Some((Instructions::ASL, AddressingMode::ABSOLUTE, 3, 6, OopsCycle::NONE, f_nzc))
    } else if opcode == 0x10 {
        Some((Instructions::BPL, AddressingMode::RELATIVE, 2, 2, OopsCycle::BranchOccursOn, f_none))
    } else if opcode == 0x11 {
        Some((Instructions::ORA, AddressingMode::INDIRECTY, 2, 5, OopsCycle::PageBoundryCrossed, f_nz))
    } else if opcode == 0x15 {
        Some((Instructions::ORA, AddressingMode::ZEROPAGEX, 2, 4, OopsCycle::NONE, f_nz))
    } else if opcode == 0x16 {
        Some((Instructions::ASL, AddressingMode::ZEROPAGEX, 2, 6, OopsCycle::NONE, f_nzc))
    } else if opcode == 0x18 {
        Some((Instructions::CLC, AddressingMode::IMPLIED, 1, 2, OopsCycle::NONE, f_c0))
    } else if opcode == 0x19 {
        Some((Instructions::ORA, AddressingMode::ABSOLUTEY, 3, 4, OopsCycle::PageBoundryCrossed, f_nz))
    } else if opcode == 0x1D {
        Some((Instructions::ORA, AddressingMode::ABSOLUTEX, 3, 4, OopsCycle::PageBoundryCrossed, f_nz))
    } else if opcode == 0x1E {
        Some((Instructions::ASL, AddressingMode::ABSOLUTEX, 3, 7, OopsCycle::NONE, f_nzc))
    } else if opcode == 0x20 {
        Some((Instructions::JSR, AddressingMode::ABSOLUTE, 3, 6, OopsCycle::NONE, f_none))
    } else if opcode == 0x21 {
        Some((Instructions::AND, AddressingMode::INDIRECTX, 2, 6, OopsCycle::NONE, f_nz))
    } else if opcode == 0x24 {
        Some((Instructions::BIT, AddressingMode::ZEROPAGE, 2, 3, OopsCycle::NONE, f_m7m6))
    } else if opcode == 0x25 {
        Some((Instructions::AND, AddressingMode::ZEROPAGE, 2, 3, OopsCycle::NONE, f_nz))
    } else if opcode == 0x26 {
        Some((Instructions::ROL, AddressingMode::ZEROPAGE, 2, 5, OopsCycle::NONE, f_nzc))
    } else if opcode == 0x28 {
        Some((Instructions::PLP, AddressingMode::IMPLIED, 1, 4, OopsCycle::NONE, f_stack))
    } else if opcode == 0x29 {
        Some((Instructions::AND, AddressingMode::IMMEDIATE, 2, 2, OopsCycle::NONE, f_nz))
    } else if opcode == 0x2A {
        Some((Instructions::ROL, AddressingMode::ACCUMULATOR, 1, 2, OopsCycle::NONE, f_nzc))
    } else if opcode == 0x2C {
        Some((Instructions::BIT, AddressingMode::ABSOLUTE, 3, 4, OopsCycle::NONE, f_m7m6))
    } else if opcode == 0x2D {
        Some((Instructions::AND, AddressingMode::ABSOLUTE, 3, 4, OopsCycle::NONE, f_nz))
    } else if opcode == 0x2E {
        Some((Instructions::ROL, AddressingMode::ABSOLUTE, 3, 6, OopsCycle::NONE, f_nzc))
    } else if opcode == 0x30 {
        Some((Instructions::BMI, AddressingMode::RELATIVE, 2, 2, OopsCycle::BranchOccursOn, f_none))
    } else if opcode == 0x31 {
        Some((Instructions::AND, AddressingMode::INDIRECTY, 2, 5, OopsCycle::PageBoundryCrossed, f_nz))
    } else if opcode == 0x35 {
        Some((Instructions::AND, AddressingMode::ZEROPAGEX, 2, 4, OopsCycle::NONE, f_nz))
    } else if opcode == 0x36 {
        Some((Instructions::ROL, AddressingMode::ZEROPAGEX, 2, 6, OopsCycle::NONE, f_nzc))
    } else if opcode == 0x38 {
        Some((Instructions::SEC, AddressingMode::IMPLIED, 1, 2, OopsCycle::NONE, f_c1))
    } else if opcode == 0x39 {
        Some((Instructions::AND, AddressingMode::ABSOLUTEY, 3, 4, OopsCycle::PageBoundryCrossed, f_nz))
    } else if opcode == 0x3D {
        Some((Instructions::AND, AddressingMode::ABSOLUTEX, 3, 4, OopsCycle::PageBoundryCrossed, f_nz))
    } else if opcode == 0x3E {
        Some((Instructions::ROL, AddressingMode::ABSOLUTEX, 3, 7, OopsCycle::NONE, f_nzc))
    } else {
        None
    }
}

fn decode_q0(opcode: u8) -> (r: Option<DecodedOp>)
    ensures
        r == spec_decode_q0(opcode),
{
    proof {
        reveal(spec_decode_q0);
    }
    let nm = ProcessorStatusRegisterBitChanges::NotModified;
    let mo = ProcessorStatusRegisterBitChanges::MODIFIED;
    let st = ProcessorStatusRegisterBitChanges::SET;
    let cl = ProcessorStatusRegisterBitChanges::CLEARED;
    let fs = ProcessorStatusRegisterBitChanges::FromStack;
    let f_none = (PBitflagsChange { n: nm, z: nm, c: nm, i: nm, d: nm, v: nm });
    let f_c1 = (PBitflagsChange { n: nm, z: nm, c: st, i: nm, d: nm, v: nm });
    let f_c0 = (PBitflagsChange { n: nm, z: nm, c: cl, i: nm, d: nm, v: nm });
    let f_i1 = (PBitflagsChange { n: nm, z: nm, c: nm, i: st, d: nm, v: nm });
    let f_i0 = (PBitflagsChange { n: nm, z: nm, c: nm, i: cl, d: nm, v: nm });
    let f_d1 = (PBitflagsChange { n: nm, z: nm, c: nm, i: nm, d: st, v: nm });
    let f_d0 = (PBitflagsChange { n: nm, z: nm, c: nm, i: nm, d: cl, v: nm });
    let f_v0 = (PBitflagsChange { n: nm, z: nm, c: nm, i: nm, d: nm, v: cl });
    let f_nz = (PBitflagsChange { n: mo, z: mo, c: nm, i: nm, d: nm, v: nm });
    let f_nzc = (PBitflagsChange { n: mo, z: mo, c: mo, i: nm, d: nm, v: nm });
    let f_nzcv = (PBitflagsChange { n: mo, z: mo, c: mo, i: nm, d: nm, v: mo });
    let f_0zc = (PBitflagsChange { n: cl, z: mo, c: mo, i: nm, d: nm, v: nm });
    let f_m7m6 = (PBitflagsChange {
        n: ProcessorStatusRegisterBitChanges::M7,
        z: mo,
        c: nm,
        i: nm,
        d: nm,
        v: ProcessorStatusRegisterBitChanges::M6,
    });
    let f_stack = (PBitflagsChange { n: fs, z: fs, c: fs, i: fs, d: fs, v: fs });

    match opcode {
        0x00 => Some((Instructions::BRK, AddressingMode::IMPLIED, 1, 7, OopsCycle::NONE, f_i1)),
        0x01 => Some((Instructions::ORA, AddressingMode::INDIRECTX, 2, 6, OopsCycle::NONE, f_nz)),
        0x05 => Some((Instructions::ORA, AddressingMode::ZEROPAGE, 2, 3, OopsCycle::NONE, f_nz)),
        0x06 => Some((Instructions::ASL, AddressingMode::ZEROPAGE, 2, 5, OopsCycle::NONE, f_nzc)),
        0x08 => Some((Instructions::PHP, AddressingMode::IMPLIED, 1, 3, OopsCycle::NONE, f_none)),
        0x09 => Some((Instructions::ORA, AddressingMode::IMMEDIATE, 2, 2, OopsCycle::NONE, f_nz)),
        0x0A => Some((Instructions::ASL, AddressingMode::ACCUMULATOR, 1, 2, OopsCycle::NONE, f_nzc)),
        0x0D => Some((Instructions::ORA, AddressingMode::ABSOLUTE, 3, 4, OopsCycle::NONE, f_nz)),
        0x0E => Some((Instructions::ASL, AddressingMode::ABSOLUTE, 3, 6, OopsCycle::NONE, f_nzc)),
        0x10 => Some((Instructions::BPL, AddressingMode::RELATIVE, 2, 2, OopsCycle::BranchOccursOn, f_none)),
        0x11 => Some((Instructions::ORA, AddressingMode::INDIRECTY, 2, 5, OopsCycle::PageBoundryCrossed, f_nz)),
        0x15 => Some((Instructions::ORA, AddressingMode::ZEROPAGEX, 2, 4, OopsCycle::NONE, f_nz)),
        0x16 => Some((Instructions::ASL, AddressingMode::ZEROPAGEX, 2, 6, OopsCycle::NONE, f_nzc)),
        0x18 => Some((Instructions::CLC, AddressingMode::IMPLIED, 1, 2, OopsCycle::NONE, f_c0)),
        0x19 => Some((Instructions::ORA, AddressingMode::ABSOLUTEY, 3, 4, OopsCycle::PageBoundryCrossed, f_nz)),
        0x1D => Some((Instructions::ORA, AddressingMode::ABSOLUTEX, 3, 4, OopsCycle::PageBoundryCrossed, f_nz)),
        0x1E => Some((Instructions::ASL, AddressingMode::ABSOLUTEX, 3, 7, OopsCycle::NONE, f_nzc)),
        0x20 => Some((Instructions::JSR, AddressingMode::ABSOLUTE, 3, 6, OopsCycle::NONE, f_none)),
        0x21 => Some((Instructions::AND, AddressingMode::INDIRECTX, 2, 6, OopsCycle::NONE, f_nz)),
        0x24 => Some((Instructions::BIT, AddressingMode::ZEROPAGE, 2, 3, OopsCycle::NONE, f_m7m6)),
        0x25 => Some((Instructions::AND, AddressingMode::ZEROPAGE, 2, 3, OopsCycle::NONE, f_nz)),
        0x26 => Some((Instructions::ROL, AddressingMode::ZEROPAGE, 2, 5, OopsCycle::NONE, f_nzc)),
        0x28 => Some((Instructions::PLP, AddressingMode::IMPLIED, 1, 4, OopsCycle::NONE, f_stack)),
        0x29 => Some((Instructions::AND, AddressingMode::IMMEDIATE, 2, 2, OopsCycle::NONE, f_nz)),
        0x2A => Some((Instructions::ROL, AddressingMode::ACCUMULATOR, 1, 2, OopsCycle::NONE, f_nzc)),
        0x2C => Some((Instructions::BIT, AddressingMode::ABSOLUTE, 3, 4, OopsCycle::NONE, f_m7m6)),
        0x2D => Some((Instructions::AND, AddressingMode::ABSOLUTE, 3, 4, OopsCycle::NONE, f_nz)),
        0x2E => Some((Instructions::ROL, AddressingMode::ABSOLUTE, 3, 6, OopsCycle::NONE, f_nzc)),
        0x30 => Some((Instructions::BMI, AddressingMode::RELATIVE, 2, 2, OopsCycle::BranchOccursOn, f_none)),
        0x31 => Some((Instructions::AND, AddressingMode::INDIRECTY, 2, 5, OopsCycle::PageBoundryCrossed, f_nz)),
        0x35 => Some((Instructions::AND, AddressingMode::ZEROPAGEX, 2, 4, OopsCycle::NONE, f_nz)),
        0x36 => Some((Instructions::ROL, AddressingMode::ZEROPAGEX, 2, 6, OopsCycle::NONE, f_nzc)),
        0x38 => Some((Instructions::SEC, AddressingMode::IMPLIED, 1, 2, OopsCycle::NONE, f_c1)),
        0x39 => Some((Instructions::AND, AddressingMode::ABSOLUTEY, 3, 4, OopsCycle::PageBoundryCrossed, f_nz)),
        0x3D => Some((Instructions::AND, AddressingMode::ABSOLUTEX, 3, 4, OopsCycle::PageBoundryCrossed, f_nz)),
        0x3E => Some((Instructions::ROL, AddressingMode::ABSOLUTEX, 3, 7, OopsCycle::NONE, f_nzc)),
        _ => None,
    }
}

/// The decoder rows for opcodes 0x40..=0x7F.
#[verifier::opaque]
pub open spec fn spec_decode_q1(opcode: u8) -> Option<DecodedOp> {
    let nm = ProcessorStatusRegisterBitChanges::NotModified;
    let mo = ProcessorStatusRegisterBitChanges::MODIFIED;
    let st = ProcessorStatusRegisterBitChanges::SET;
    let cl = ProcessorStatusRegisterBitChanges::CLEARED;
    let fs = ProcessorStatusRegisterBitChanges::FromStack;
    let f_none = (PBitflagsChange { n: nm, z: nm, c: nm, i: nm, d: nm, v: nm });
    let f_c1 = (PBitflagsChange { n: nm, z: nm, c: st, i: nm, d: nm, v: nm });
    let f_c0 = (PBitflagsChange { n: nm, z: nm, c: cl, i: nm, d: nm, v: nm });
    let f_i1 = (PBitflagsChange { n: nm, z: nm, c: nm, i: st, d: nm, v: nm });
    let f_i0 = (PBitflagsChange { n: nm, z: nm, c: nm, i: cl, d: nm, v: nm });
    let f_d1 = (PBitflagsChange { n: nm, z: nm, c: nm, i: nm, d: st, v: nm });
    let f_d0 = (PBitflagsChange { n: nm, z: nm, c: nm, i: nm, d: cl, v: nm });
    let f_v0 = (PBitflagsChange { n: nm, z: nm, c: nm, i: nm, d: nm, v: cl });
    let f_nz = (PBitflagsChange { n: mo, z: mo, c: nm, i: nm, d: nm, v: nm });
    let f_nzc = (PBitflagsChange { n: mo, z: mo, c: mo, i: nm, d: nm, v: nm });
    let f_nzcv = (PBitflagsChange { n: mo, z: mo, c: mo, i: nm, d: nm, v: mo });
    let f_0zc = (PBitflagsChange { n: cl, z: mo, c: mo, i: nm, d: nm, v: nm });
    let f_m7m6 = (PBitflagsChange {
        n: ProcessorStatusRegisterBitChanges::M7,
        z: mo,
        c: nm,
        i: nm,
        d: nm,
        v: ProcessorStatusRegisterBitChanges::M6,
    });
    let f_stack = (PBitflagsChange { n: fs, z: fs, c: fs, i: fs, d: fs, v: fs });

    if opcode == 0x40 {
        Some((Instructions::RTI, AddressingMode::IMPLIED, 1, 6, OopsCycle::NONE, f_stack))
    } else if opcode == 0x41 {
        Some((Instructions::EOR, AddressingMode::INDIRECTX, 2, 6, OopsCycle::NONE, f_nz))
    } else if opcode == 0x45 {
        Some((Instructions::EOR, AddressingMode::ZEROPAGE, 2, 3, OopsCycle::NONE, f_nz))
    } else if opcode == 0x46 {
        Some((Instructions::LSR, AddressingMode::ZEROPAGE, 2, 5, OopsCycle::NONE, f_0zc))
    } else if opcode == 0x48 {
        Some((Instructions::PHA, AddressingMode::IMPLIED, 1, 3, OopsCycle::NONE, f_none))
    } else if opcode == 0x49 {
        Some((Instructions::EOR, AddressingMode::IMMEDIATE, 2, 2, OopsCycle::NONE, f_nz))
    } else if opcode == 0x4A {
        Some((Instructions::LSR, AddressingMode::ACCUMULATOR, 1, 2, OopsCycle::NONE, f_0zc))
    } else if opcode == 0x4C {
        Some((Instructions::JMP, AddressingMode::ABSOLUTE, 3, 3, OopsCycle::NONE, f_none))
    } else if opcode == 0x4D {
        Some((Instructions::EOR, AddressingMode::ABSOLUTE, 3, 4, OopsCycle::NONE, f_nz))
    } else if opcode == 0x4E {
        Some((Instructions::LSR, AddressingMode::ABSOLUTE, 3, 6, OopsCycle::NONE, f_0zc))
    } else if opcode == 0x50 {
        Some((Instructions::BVC, AddressingMode::RELATIVE, 2, 2, OopsCycle::BranchOccursOn, f_none))
    } else if opcode == 0x51 {
        Some((Instructions::EOR, AddressingMode::INDIRECTY, 2, 5, OopsCycle::PageBoundryCrossed, f_nz))
    } else if opcode == 0x55 {
        Some((Instructions::EOR, AddressingMode::ZEROPAGEX, 2, 4, OopsCycle::NONE, f_nz))
    } else if opcode == 0x56 {
        Some((Instructions::LSR, AddressingMode::ZEROPAGEX, 2, 6, OopsCycle::NONE, f_0zc))
    } else if opcode == 0x58 {
        Some((Instructions::CLI, AddressingMode::IMPLIED, 1, 2, OopsCycle::NONE, f_i0))
    } else if opcode == 0x59 {
        Some((Instructions::EOR, AddressingMode::ABSOLUTEY, 3, 4, OopsCycle::PageBoundryCrossed, f_nz))
    } else if opcode == 0x5D {
        Some((Instructions::EOR, AddressingMode::ABSOLUTEX, 3, 4, OopsCycle::PageBoundryCrossed, f_nz))
    } else if opcode == 0x5E {
        Some((Instructions::LSR, AddressingMode::ABSOLUTEX, 3, 7, OopsCycle::NONE, f_0zc))
    } else if opcode == 0x60 {
        Some((Instructions::RTS, AddressingMode::IMPLIED, 1, 6, OopsCycle::NONE, f_none))
    } else if opcode == 0x61 {
        Some((Instructions::ADC, AddressingMode::INDIRECTX, 2, 6, OopsCycle::NONE, f_nzcv))
    } else if opcode == 0x65 {
        Some((Instructions::ADC, AddressingMode::ZEROPAGE, 2, 3, OopsCycle::NONE, f_nzcv))
    } else if opcode == 0x66 {
        Some((Instructions::ROR, AddressingMode::ZEROPAGE, 2, 5, OopsCycle::NONE, f_nzc))
    } else if opcode == 0x68 {
        Some((Instructions::PLA, AddressingMode::IMPLIED, 1, 4, OopsCycle::NONE, f_nz))
    } else if opcode == 0x69 {
        Some((Instructions::ADC, AddressingMode::IMMEDIATE, 2, 2, OopsCycle::NONE, f_nzcv))
    } else if opcode == 0x6A {
        Some((Instructions::ROR, AddressingMode::ACCUMULATOR, 1, 2, OopsCycle::NONE, f_nzc))
    } else if opcode == 0x6C {
        Some((Instructions::JMP, AddressingMode::INDIRECT, 3, 5, OopsCycle::NONE, f_none))
    } else if opcode == 0x6D {
        Some((Instructions::ADC, AddressingMode::ABSOLUTE, 3, 4, OopsCycle::NONE, f_nzcv))
    } else if opcode == 0x6E {
        Some((Instructions::ROR, AddressingMode::ABSOLUTE, 3, 6, OopsCycle::NONE, f_nzc))
    } else if opcode == 0x70 {
        Some((Instructions::BVS, AddressingMode::RELATIVE, 2, 2, OopsCycle::BranchOccursOn, f_none))
    } else if opcode == 0x71 {
        Some((Instructions::ADC, AddressingMode::INDIRECTY, 2, 5, OopsCycle::PageBoundryCrossed, f_nzcv))
    } else if opcode == 0x75 {
        Some((Instructions::ADC, AddressingMode::ZEROPAGEX, 2, 4, OopsCycle::NONE, f_nzcv))
    } else if opcode == 0x76 {
        Some((Instructions::ROR, AddressingMode::ZEROPAGEX, 2, 6, OopsCycle::NONE, f_nzc))
    } else if opcode == 0x78 {
        Some((Instructions::SEI, AddressingMode::IMPLIED, 1, 2, OopsCycle::NONE, f_i1))
    } else if opcode == 0x79 {
        Some((Instructions::ADC, AddressingMode::ABSOLUTEY, 3, 4, OopsCycle::PageBoundryCrossed, f_nzcv))
    } else if opcode == 0x7D {
        Some((Instructions::ADC, AddressingMode::ABSOLUTEX, 3, 4, OopsCycle::PageBoundryCrossed, f_nzcv))
    } else if opcode == 0x7E {
        Some((Instructions::ROR, AddressingMode::ABSOLUTEX, 3, 7, OopsCycle::NONE, f_nzc))
    } else {
        None
    }
}

fn decode_q1(opcode: u8) -> (r: Option<DecodedOp>)
    ensures
        r == spec_decode_q1(opcode),
{
    proof {
        reveal(spec_decode_q1);
    }
    let nm = ProcessorStatusRegisterBitChanges::NotModified;
    let mo = ProcessorStatusRegisterBitChanges::MODIFIED;
    let st = ProcessorStatusRegisterBitChanges::SET;
    let cl = ProcessorStatusRegisterBitChanges::CLEARED;
    let fs = ProcessorStatusRegisterBitChanges::FromStack;
    let f_none = (PBitflagsChange { n: nm, z: nm, c: nm, i: nm, d: nm, v: nm });
    let f_c1 = (PBitflagsChange { n: nm, z: nm, c: st, i: nm, d: nm, v: nm });
    let f_c0 = (PBitflagsChange { n: nm, z: nm, c: cl, i: nm, d: nm, v: nm });
    let f_i1 = (PBitflagsChange { n: nm, z: nm, c: nm, i: st, d: nm, v: nm });
    let f_i0 = (PBitflagsChange { n: nm, z: nm, c: nm, i: cl, d: nm, v: nm });
    let f_d1 = (PBitflagsChange { n: nm, z: nm, c: nm, i: nm, d: st, v: nm });
    let f_d0 = (PBitflagsChange { n: nm, z: nm, c: nm, i: nm, d: cl, v: nm });
    let f_v0 = (PBitflagsChange { n: nm, z: nm, c: nm, i: nm, d: nm, v: cl });
    let f_nz = (PBitflagsChange { n: mo, z: mo, c: nm, i: nm, d: nm, v: nm });
    let f_nzc = (PBitflagsChange { n: mo, z: mo, c: mo, i: nm, d: nm, v: nm });
    let f_nzcv = (PBitflagsChange { n: mo, z: mo, c: mo, i: nm, d: nm, v: mo });
    let f_0zc = (PBitflagsChange { n: cl, z: mo, c: mo, i: nm, d: nm, v: nm });
    let f_m7m6 = (PBitflagsChange {
        n: ProcessorStatusRegisterBitChanges::M7,
        z: mo,
        c: nm,
        i: nm,
        d: nm,
        v: ProcessorStatusRegisterBitChanges::M6,
    });
    let f_stack = (PBitflagsChange { n: fs, z: fs, c: fs, i: fs, d: fs, v: fs });

    match opcode {
        0x40 => Some((Instructions::RTI, AddressingMode::IMPLIED, 1, 6, OopsCycle::NONE, f_stack)),
        0x41 => Some((Instructions::EOR, AddressingMode::INDIRECTX, 2, 6, OopsCycle::NONE, f_nz)),
        0x45 => Some((Instructions::EOR, AddressingMode::ZEROPAGE, 2, 3, OopsCycle::NONE, f_nz)),
        0x46 => Some((Instructions::LSR, AddressingMode::ZEROPAGE, 2, 5, OopsCycle::NONE, f_0zc)),
        0x48 => Some((Instructions::PHA, AddressingMode::IMPLIED, 1, 3, OopsCycle::NONE, f_none)),
        0x49 => Some((Instructions::EOR, AddressingMode::IMMEDIATE, 2, 2, OopsCycle::NONE, f_nz)),
        0x4A => Some((Instructions::LSR, AddressingMode::ACCUMULATOR, 1, 2, OopsCycle::NONE, f_0zc)),
        0x4C => Some((Instructions::JMP, AddressingMode::ABSOLUTE, 3, 3, OopsCycle::NONE, f_none)),
        0x4D => Some((Instructions::EOR, AddressingMode::ABSOLUTE, 3, 4, OopsCycle::NONE, f_nz)),
        0x4E => Some((Instructions::LSR, AddressingMode::ABSOLUTE, 3, 6, OopsCycle::NONE, f_0zc)),
        0x50 => Some((Instructions::BVC, AddressingMode::RELATIVE, 2, 2, OopsCycle::BranchOccursOn, f_none)),
        0x51 => Some((Instructions::EOR, AddressingMode::INDIRECTY, 2, 5, OopsCycle::PageBoundryCrossed, f_nz)),
        0x55 => Some((Instructions::EOR, AddressingMode::ZEROPAGEX, 2, 4, OopsCycle::NONE, f_nz)),
        0x56 => Some((Instructions::LSR, AddressingMode::ZEROPAGEX, 2, 6, OopsCycle::NONE, f_0zc)),
        0x58 => Some((Instructions::CLI, AddressingMode::IMPLIED, 1, 2, OopsCycle::NONE, f_i0)),
        0x59 => Some((Instructions::EOR, AddressingMode::ABSOLUTEY, 3, 4, OopsCycle::PageBoundryCrossed, f_nz)),
        0x5D => Some((Instructions::EOR, AddressingMode::ABSOLUTEX, 3, 4, OopsCycle::PageBoundryCrossed, f_nz)),
        0x5E => Some((Instructions::LSR, AddressingMode::ABSOLUTEX, 3, 7, OopsCycle::NONE, f_0zc)),
        0x60 => Some((Instructions::RTS, AddressingMode::IMPLIED, 1, 6, OopsCycle::NONE, f_none)),
        0x61 => Some((Instructions::ADC, AddressingMode::INDIRECTX, 2, 6, OopsCycle::NONE, f_nzcv)),
        0x65 => Some((Instructions::ADC, AddressingMode::ZEROPAGE, 2, 3, OopsCycle::NONE, f_nzcv)),
        0x66 => Some((Instructions::ROR, AddressingMode::ZEROPAGE, 2, 5, OopsCycle::NONE, f_nzc)),
        0x68 => Some((Instructions::PLA, AddressingMode::IMPLIED, 1, 4, OopsCycle::NONE, f_nz)),
        0x69 => Some((Instructions::ADC, AddressingMode::IMMEDIATE, 2, 2, OopsCycle::NONE, f_nzcv)),
        0x6A => Some((Instructions::ROR, AddressingMode::ACCUMULATOR, 1, 2, OopsCycle::NONE, f_nzc)),
        0x6C => Some((Instructions::JMP, AddressingMode::INDIRECT, 3, 5, OopsCycle::NONE, f_none)),
        0x6D => Some((Instructions::ADC, AddressingMode::ABSOLUTE, 3, 4, OopsCycle::NONE, f_nzcv)),
        0x6E => Some((Instructions::ROR, AddressingMode::ABSOLUTE, 3, 6, OopsCycle::NONE, f_nzc)),
        0x70 => Some((Instructions::BVS, AddressingMode::RELATIVE, 2, 2, OopsCycle::BranchOccursOn, f_none)),
        0x71 => Some((Instructions::ADC, AddressingMode::INDIRECTY, 2, 5, OopsCycle::PageBoundryCrossed, f_nzcv)),
        0x75 => Some((Instructions::ADC, AddressingMode::ZEROPAGEX, 2, 4, OopsCycle::NONE, f_nzcv)),
        0x76 => Some((Instructions::ROR, AddressingMode::ZEROPAGEX, 2, 6, OopsCycle::NONE, f_nzc)),
        0x78 => Some((Instructions::SEI, AddressingMode::IMPLIED, 1, 2, OopsCycle::NONE, f_i1)),
        0x79 => Some((Instructions::ADC, AddressingMode::ABSOLUTEY, 3, 4, OopsCycle::PageBoundryCrossed, f_nzcv)),
        0x7D => Some((Instructions::ADC, AddressingMode::ABSOLUTEX, 3, 4, OopsCycle::PageBoundryCrossed, f_nzcv)),
        0x7E => Some((Instructions::ROR, AddressingMode::ABSOLUTEX, 3, 7, OopsCycle::NONE, f_nzc)),
        _ => None,
    }
}

/// The decoder rows for opcodes 0x80..=0xBF.
#[verifier::opaque]
pub open spec fn spec_decode_q2(opcode: u8) -> Option<DecodedOp> {
    let nm = ProcessorStatusRegisterBitChanges::NotModified;
    let mo = ProcessorStatusRegisterBitChanges::MODIFIED;
    let st = ProcessorStatusRegisterBitChanges::SET;
    let cl = ProcessorStatusRegisterBitChanges::CLEARED;
    let fs = ProcessorStatusRegisterBitChanges::FromStack;
    let f_none = (PBitflagsChange { n: nm, z: nm, c: nm, i: nm, d: nm, v: nm });
    let f_c1 = (PBitflagsChange { n: nm, z: nm, c: st, i: nm, d: nm, v: nm });
    let f_c0 = (PBitflagsChange { n: nm, z: nm, c: cl, i: nm, d: nm, v: nm });
    let f_i1 = (PBitflagsChange { n: nm, z: nm, c: nm, i: st, d: nm, v: nm });
    let f_i0 = (PBitflagsChange { n: nm, z: nm, c: nm, i: cl, d: nm, v: nm });
    let f_d1 = (PBitflagsChange { n: nm, z: nm, c: nm, i: nm, d: st, v: nm });
    let f_d0 = (PBitflagsChange { n: nm, z: nm, c: nm, i: nm, d: cl, v: nm });
    let f_v0 = (PBitflagsChange { n: nm, z: nm, c: nm, i: nm, d: nm, v: cl });
    let f_nz = (PBitflagsChange { n: mo, z: mo, c: nm, i: nm, d: nm, v: nm });
    let f_nzc = (PBitflagsChange { n: mo, z: mo, c: mo, i: nm, d: nm, v: nm });
    let f_nzcv = (PBitflagsChange { n: mo, z: mo, c: mo, i: nm, d: nm, v: mo });
    let f_0zc = (PBitflagsChange { n: cl, z: mo, c: mo, i: nm, d: nm, v: nm });
    let f_m7m6 = (PBitflagsChange {
        n: ProcessorStatusRegisterBitChanges::M7,
        z: mo,
        c: nm,
        i: nm,
        d: nm,
        v: ProcessorStatusRegisterBitChanges::M6,
    });
    let f_stack = (PBitflagsChange { n: fs, z: fs, c: fs, i: fs, d: fs, v: fs });

    if opcode == 0x81 {
        Some((Instructions::STA, AddressingMode::INDIRECTX, 2, 6, OopsCycle::NONE, f_none))
    } else if opcode == 0x84 {
        Some((Instructions::STY, AddressingMode::ZEROPAGE, 2, 3, OopsCycle::NONE, f_none))
    } else if opcode == 0x85 {
        Some((Instructions::STA, AddressingMode::ZEROPAGE, 2, 3, OopsCycle::NONE, f_none))
    } else if opcode == 0x86 {
        Some((Instructions::STX, AddressingMode::ZEROPAGE, 2, 3, OopsCycle::NONE, f_none))
    } else if opcode == 0x88 {
        Some((Instructions::DEY, AddressingMode::IMPLIED, 1, 2, OopsCycle::NONE, f_nz))
    } else if opcode == 0x8A {
        Some((Instructions::TXA, AddressingMode::IMPLIED, 1, 2, OopsCycle::NONE, f_nz))
    } else if opcode == 0x8C {
        Some((Instructions::STY, AddressingMode::ABSOLUTE, 3, 4, OopsCycle::NONE, f_none))
    } else if opcode == 0x8D {
        Some((Instructions::STA, AddressingMode::ABSOLUTE, 3, 4, OopsCycle::NONE, f_none))
    } else if opcode == 0x8E {
        Some((Instructions::STX, AddressingMode::ABSOLUTE, 3, 4, OopsCycle::NONE, f_none))
    } else if opcode == 0x90 {
        Some((Instructions::BCC, AddressingMode::RELATIVE, 2, 2, OopsCycle::BranchOccursOn, f_none))
    } else if opcode == 0x91 {
        Some((Instructions::STA, AddressingMode::INDIRECTY, 2, 6, OopsCycle::NONE, f_none))
    } else if opcode == 0x94 {
        Some((Instructions::STY, AddressingMode::ZEROPAGEX, 2, 4, OopsCycle::NONE, f_none))
    } else if opcode == 0x95 {
        Some((Instructions::STA, AddressingMode::ZEROPAGEX, 2, 4, OopsCycle::NONE, f_none))
    } else if opcode == 0x96 {
        Some((Instructions::STX, AddressingMode::ZEROPAGEY, 2, 4, OopsCycle::NONE, f_none))
    } else if opcode == 0x98 {
        Some((Instructions::TYA, AddressingMode::IMPLIED, 1, 2, OopsCycle::NONE, f_nz))
    } else if opcode == 0x99 {
        Some((Instructions::STA, AddressingMode::ABSOLUTEY, 3, 5, OopsCycle::NONE, f_none))
    } else if opcode == 0x9A {
        Some((Instructions::TXS, AddressingMode::IMPLIED, 1, 2, OopsCycle::NONE, f_none))
    } else if opcode == 0x9D {
        Some((Instructions::STA, AddressingMode::ABSOLUTEX, 3, 5, OopsCycle::NONE, f_none))
    } else if opcode == 0xA0 {
        Some((Instructions::LDY, AddressingMode::IMMEDIATE, 2, 2, OopsCycle::NONE, f_nz))
    } else if opcode == 0xA1 {
        Some((Instructions::LDA, AddressingMode::INDIRECTX, 2, 6, OopsCycle::NONE, f_nz))
    } else if opcode == 0xA2 {
        Some((Instructions::LDX, AddressingMode::IMMEDIATE, 2, 2, OopsCycle::NONE, f_nz))
    } else if opcode == 0xA4 {
        Some((Instructions::LDY, AddressingMode::ZEROPAGE, 2, 3, OopsCycle::NONE, f_nz))
    } else if opcode == 0xA5 {
        Some((Instructions::LDA, AddressingMode::ZEROPAGE, 2, 3, OopsCycle::NONE, f_nz))
    } else if opcode == 0xA6 {
        Some((Instructions::LDX, AddressingMode::ZEROPAGE, 2, 3, OopsCycle::NONE, f_nz))
    } else if opcode == 0xA8 {
        Some((Instructions::TAY, AddressingMode::IMPLIED, 1, 2, OopsCycle::NONE, f_nz))
    } else if opcode == 0xA9 {
        Some((Instructions::LDA, AddressingMode::IMMEDIATE, 2, 2, OopsCycle::NONE, f_nz))
    } else if opcode == 0xAA {
        Some((Instructions::TAX, AddressingMode::IMPLIED, 1, 2, OopsCycle::NONE, f_nz))
    } else if opcode == 0xAC {
        Some((Instructions::LDY, AddressingMode::ABSOLUTE, 3, 4, OopsCycle::NONE, f_nz))
    } else if opcode == 0xAD {
        Some((Instructions::LDA, AddressingMode::ABSOLUTE, 3, 4, OopsCycle::NONE, f_nz))
    } else if opcode == 0xAE {
        Some((Instructions::LDX, AddressingMode::ABSOLUTE, 3, 4, OopsCycle::NONE, f_nz))
    } else if opcode == 0xB0 {
        Some((Instructions::BCS, AddressingMode::RELATIVE, 2, 2, OopsCycle::BranchOccursOn, f_none))
    } else if opcode == 0xB1 {
        Some((Instructions::LDA, AddressingMode::INDIRECTY, 2, 5, OopsCycle::PageBoundryCrossed, f_nz))
    } else if opcode == 0xB4 {
        Some((Instructions::LDY, AddressingMode::ZEROPAGEX, 2, 4, OopsCycle::NONE, f_nz))
    } else if opcode == 0xB5 {
        Some((Instructions::LDA, AddressingMode::ZEROPAGEX, 2, 4, OopsCycle::NONE, f_nz))
    } else if opcode == 0xB6 {
        Some((Instructions::LDX, AddressingMode::ZEROPAGEY, 2, 4, OopsCycle::NONE, f_nz))
    } else if opcode == 0xB8 {
        Some((Instructions::CLV, AddressingMode::IMPLIED, 1, 2, OopsCycle::NONE, f_v0))
    } else if opcode == 0xB9 {
        Some((Instructions::LDA, AddressingMode::ABSOLUTEY, 3, 4, OopsCycle::PageBoundryCrossed, f_nz))
    } else if opcode == 0xBA {
        Some((Instructions::TSX, AddressingMode::IMPLIED, 1, 2, OopsCycle::NONE, f_nz))
    } else if opcode == 0xBC {
        Some((Instructions::LDY, AddressingMode::ABSOLUTEX, 3, 4, OopsCycle::PageBoundryCrossed, f_nz))
    } else if opcode == 0xBD {
        Some((Instructions::LDA, AddressingMode::ABSOLUTEX, 3, 4, OopsCycle::PageBoundryCrossed, f_nz))
    } else if opcode == 0xBE {
        Some((Instructions::LDX, AddressingMode::ABSOLUTEY, 3, 4, OopsCycle::PageBoundryCrossed, f_nz))
    } else {
        None
    }
}

fn decode_q2(opcode: u8) -> (r: Option<DecodedOp>)
    ensures
        r == spec_decode_q2(opcode),
{
    proof {
        reveal(spec_decode_q2);
    }
    let nm = ProcessorStatusRegisterBitChanges::NotModified;
    let mo = ProcessorStatusRegisterBitChanges::MODIFIED;
    let st = ProcessorStatusRegisterBitChanges::SET;
    let cl = ProcessorStatusRegisterBitChanges::CLEARED;
    let fs = ProcessorStatusRegisterBitChanges::FromStack;
    let f_none = (PBitflagsChange { n: nm, z: nm, c: nm, i: nm, d: nm, v: nm });
    let f_c1 = (PBitflagsChange { n: nm, z: nm, c: st, i: nm, d: nm, v: nm });
    let f_c0 = (PBitflagsChange { n: nm, z: nm, c: cl, i: nm, d: nm, v: nm });
    let f_i1 = (PBitflagsChange { n: nm, z: nm, c: nm, i: st, d: nm, v: nm });
    let f_i0 = (PBitflagsChange { n: nm, z: nm, c: nm, i: cl, d: nm, v: nm });
    let f_d1 = (PBitflagsChange { n: nm, z: nm, c: nm, i: nm, d: st, v: nm });
    let f_d0 = (PBitflagsChange { n: nm, z: nm, c: nm, i: nm, d: cl, v: nm });
    let f_v0 = (PBitflagsChange { n: nm, z: nm, c: nm, i: nm, d: nm, v: cl });
    let f_nz = (PBitflagsChange { n: mo, z: mo, c: nm, i: nm, d: nm, v: nm });
    let f_nzc = (PBitflagsChange { n: mo, z: mo, c: mo, i: nm, d: nm, v: nm });
    let f_nzcv = (PBitflagsChange { n: mo, z: mo, c: mo, i: nm, d: nm, v: mo });
    let f_0zc = (PBitflagsChange { n: cl, z: mo, c: mo, i: nm, d: nm, v: nm });
    let f_m7m6 = (PBitflagsChange {
        n: ProcessorStatusRegisterBitChanges::M7,
        z: mo,
        c: nm,
        i: nm,
        d: nm,
        v: ProcessorStatusRegisterBitChanges::M6,
    });
    let f_stack = (PBitflagsChange { n: fs, z: fs, c: fs, i: fs, d: fs, v: fs });

    match opcode {
        0x81 => Some((Instructions::STA, AddressingMode::INDIRECTX, 2, 6, OopsCycle::NONE, f_none)),
        0x84 => Some((Instructions::STY, AddressingMode::ZEROPAGE, 2, 3, OopsCycle::NONE, f_none)),
        0x85 => Some((Instructions::STA, AddressingMode::ZEROPAGE, 2, 3, OopsCycle::NONE, f_none)),
        0x86 => Some((Instructions::STX, AddressingMode::ZEROPAGE, 2, 3, OopsCycle::NONE, f_none)),
        0x88 => Some((Instructions::DEY, AddressingMode::IMPLIED, 1, 2, OopsCycle::NONE, f_nz)),
        0x8A => Some((Instructions::TXA, AddressingMode::IMPLIED, 1, 2, OopsCycle::NONE, f_nz)),
        0x8C => Some((Instructions::STY, AddressingMode::ABSOLUTE, 3, 4, OopsCycle::NONE, f_none)),
        0x8D => Some((Instructions::STA, AddressingMode::ABSOLUTE, 3, 4, OopsCycle::NONE, f_none)),
        0x8E => Some((Instructions::STX, AddressingMode::ABSOLUTE, 3, 4, OopsCycle::NONE, f_none)),
        0x90 => Some((Instructions::BCC, AddressingMode::RELATIVE, 2, 2, OopsCycle::BranchOccursOn, f_none)),
        0x91 => Some((Instructions::STA, AddressingMode::INDIRECTY, 2, 6, OopsCycle::NONE, f_none)),
        0x94 => Some((Instructions::STY, AddressingMode::ZEROPAGEX, 2, 4, OopsCycle::NONE, f_none)),
        0x95 => Some((Instructions::STA, AddressingMode::ZEROPAGEX, 2, 4, OopsCycle::NONE, f_none)),
        0x96 => Some((Instructions::STX, AddressingMode::ZEROPAGEY, 2, 4, OopsCycle::NONE, f_none)),
        0x98 => Some((Instructions::TYA, AddressingMode::IMPLIED, 1, 2, OopsCycle::NONE, f_nz)),
        0x99 => Some((Instructions::STA, AddressingMode::ABSOLUTEY, 3, 5, OopsCycle::NONE, f_none)),
        0x9A => Some((Instructions::TXS, AddressingMode::IMPLIED, 1, 2, OopsCycle::NONE, f_none)),
        0x9D => Some((Instructions::STA, AddressingMode::ABSOLUTEX, 3, 5, OopsCycle::NONE, f_none)),
        0xA0 => Some((Instructions::LDY, AddressingMode::IMMEDIATE, 2, 2, OopsCycle::NONE, f_nz)),
        0xA1 => Some((Instructions::LDA, AddressingMode::INDIRECTX, 2, 6, OopsCycle::NONE, f_nz)),
        0xA2 => Some((Instructions::LDX, AddressingMode::IMMEDIATE, 2, 2, OopsCycle::NONE, f_nz)),
        0xA4 => Some((Instructions::LDY, AddressingMode::ZEROPAGE, 2, 3, OopsCycle::NONE, f_nz)),
        0xA5 => Some((Instructions::LDA, AddressingMode::ZEROPAGE, 2, 3, OopsCycle::NONE, f_nz)),
        0xA6 => Some((Instructions::LDX, AddressingMode::ZEROPAGE, 2, 3, OopsCycle::NONE, f_nz)),
        0xA8 => Some((Instructions::TAY, AddressingMode::IMPLIED, 1, 2, OopsCycle::NONE, f_nz)),
        0xA9 => Some((Instructions::LDA, AddressingMode::IMMEDIATE, 2, 2, OopsCycle::NONE, f_nz)),
        0xAA => Some((Instructions::TAX, AddressingMode::IMPLIED, 1, 2, OopsCycle::NONE, f_nz)),
        0xAC => Some((Instructions::LDY, AddressingMode::ABSOLUTE, 3, 4, OopsCycle::NONE, f_nz)),
        0xAD => Some((Instructions::LDA, AddressingMode::ABSOLUTE, 3, 4, OopsCycle::NONE, f_nz)),
        0xAE => Some((Instructions::LDX, AddressingMode::ABSOLUTE, 3, 4, OopsCycle::NONE, f_nz)),
        0xB0 => Some((Instructions::BCS, AddressingMode::RELATIVE, 2, 2, OopsCycle::BranchOccursOn, f_none)),
        0xB1 => Some((Instructions::LDA, AddressingMode::INDIRECTY, 2, 5, OopsCycle::PageBoundryCrossed, f_nz)),
        0xB4 => Some((Instructions::LDY, AddressingMode::ZEROPAGEX, 2, 4, OopsCycle::NONE, f_nz)),
        0xB5 => Some((Instructions::LDA, AddressingMode::ZEROPAGEX, 2, 4, OopsCycle::NONE, f_nz)),
        0xB6 => Some((Instructions::LDX, AddressingMode::ZEROPAGEY, 2, 4, OopsCycle::NONE, f_nz)),
        0xB8 => Some((Instructions::CLV, AddressingMode::IMPLIED, 1, 2, OopsCycle::NONE, f_v0)),
        0xB9 => Some((Instructions::LDA, AddressingMode::ABSOLUTEY, 3, 4, OopsCycle::PageBoundryCrossed, f_nz)),
        0xBA => Some((Instructions::TSX, AddressingMode::IMPLIED, 1, 2, OopsCycle::NONE, f_nz)),
        0xBC => Some((Instructions::LDY, AddressingMode::ABSOLUTEX, 3, 4, OopsCycle::PageBoundryCrossed, f_nz)),
        0xBD => Some((Instructions::LDA, AddressingMode::ABSOLUTEX, 3, 4, OopsCycle::PageBoundryCrossed, f_nz)),
        0xBE => Some((Instructions::LDX, AddressingMode::ABSOLUTEY, 3, 4, OopsCycle::PageBoundryCrossed, f_nz)),
        _ => None,
    }
}

/// The decoder rows for opcodes 0xC0..=0xFF.
#[verifier::opaque]
pub open spec fn spec_decode_q3(opcode: u8) -> Option<DecodedOp> {
    let nm = ProcessorStatusRegisterBitChanges::NotModified;
    let mo = ProcessorStatusRegisterBitChanges::MODIFIED;
    let st = ProcessorStatusRegisterBitChanges::SET;
    let cl = ProcessorStatusRegisterBitChanges::CLEARED;
    let fs = ProcessorStatusRegisterBitChanges::FromStack;
    let f_none = (PBitflagsChange { n: nm, z: nm, c: nm, i: nm, d: nm, v: nm });
    let f_c1 = (PBitflagsChange { n: nm, z: nm, c: st, i: nm, d: nm, v: nm });
    let f_c0 = (PBitflagsChange { n: nm, z: nm, c: cl, i: nm, d: nm, v: nm });
    let f_i1 = (PBitflagsChange { n: nm, z: nm, c: nm, i: st, d: nm, v: nm });
    let f_i0 = (PBitflagsChange { n: nm, z: nm, c: nm, i: cl, d: nm, v: nm });
    let f_d1 = (PBitflagsChange { n: nm, z: nm, c: nm, i: nm, d: st, v: nm });
    let f_d0 = (PBitflagsChange { n: nm, z: nm, c: nm, i: nm, d: cl, v: nm });
    let f_v0 = (PBitflagsChange { n: nm, z: nm, c: nm, i: nm, d: nm, v: cl });
    let f_nz = (PBitflagsChange { n: mo, z: mo, c: nm, i: nm, d: nm, v: nm });
    let f_nzc = (PBitflagsChange { n: mo, z: mo, c: mo, i: nm, d: nm, v: nm });
    let f_nzcv = (PBitflagsChange { n: mo, z: mo, c: mo, i: nm, d: nm, v: mo });
    let f_0zc = (PBitflagsChange { n: cl, z: mo, c: mo, i: nm, d: nm, v: nm });
    let f_m7m6 = (PBitflagsChange {
        n: ProcessorStatusRegisterBitChanges::M7,
        z: mo,
        c: nm,
        i: nm,
        d: nm,
        v: ProcessorStatusRegisterBitChanges::M6,
    });
    let f_stack = (PBitflagsChange { n: fs, z: fs, c: fs, i: fs, d: fs, v: fs });

    if opcode == 0xC0 {
        Some((Instructions::CPY, AddressingMode::IMMEDIATE, 2, 2, OopsCycle::NONE, f_nzc))
    } else if opcode == 0xC1 {
        Some((Instructions::CMP, AddressingMode::INDIRECTX, 2, 6, OopsCycle::NONE, f_nzc))
    } else if opcode == 0xC4 {
        Some((Instructions::CPY, AddressingMode::ZEROPAGE, 2, 3, OopsCycle::NONE, f_nzc))
    } else if opcode == 0xC5 {
        Some((Instructions::CMP, AddressingMode::ZEROPAGE, 2, 3, OopsCycle::NONE, f_nzc))
    } else if opcode == 0xC6 {
        Some((Instructions::DEC, AddressingMode::ZEROPAGE, 2, 5, OopsCycle::NONE, f_nz))
    } else if opcode == 0xC8 {
        Some((Instructions::INY, AddressingMode::IMPLIED, 1, 2, OopsCycle::NONE, f_nz))
    } else if opcode == 0xC9 {
        Some((Instructions::CMP, AddressingMode::IMMEDIATE, 2, 2, OopsCycle::NONE, f_nzc))
    } else if opcode == 0xCA {
        Some((Instructions::DEX, AddressingMode::IMPLIED, 1, 2, OopsCycle::NONE, f_nz))
    } else if opcode == 0xCC {
        Some((Instructions::CPY, AddressingMode::ABSOLUTE, 3, 4, OopsCycle::NONE, f_nzc))
    } else if opcode == 0xCD {
        Some((Instructions::CMP, AddressingMode::ABSOLUTE, 3, 4, OopsCycle::NONE, f_nzc))
    } else if opcode == 0xCE {
        Some((Instructions::DEC, AddressingMode::ABSOLUTE, 3, 6, OopsCycle::NONE, f_nz))
    } else if opcode == 0xD0 {
        Some((Instructions::BNE, AddressingMode::RELATIVE, 2, 2, OopsCycle::BranchOccursOn, f_none))
    } else if opcode == 0xD1 {
        Some((Instructions::CMP, AddressingMode::INDIRECTY, 2, 5, OopsCycle::PageBoundryCrossed, f_nzc))
    } else if opcode == 0xD5 {
        Some((Instructions::CMP, AddressingMode::ZEROPAGEX, 2, 4, OopsCycle::NONE, f_nzc))
    } else if opcode == 0xD6 {
        Some((Instructions::DEC, AddressingMode::ZEROPAGEX, 2, 6, OopsCycle::NONE, f_nz))
    } else if opcode == 0xD8 {
        Some((Instructions::CLD, AddressingMode::IMPLIED, 1, 2, OopsCycle::NONE, f_d0))
    } else if opcode == 0xD9 {
        Some((Instructions::CMP, AddressingMode::ABSOLUTEY, 3, 4, OopsCycle::PageBoundryCrossed, f_nzc))
    } else if opcode == 0xDD {
        Some((Instructions::CMP, AddressingMode::ABSOLUTEX, 3, 4, OopsCycle::PageBoundryCrossed, f_nzc))
    } else if opcode == 0xDE {
        Some((Instructions::DEC, AddressingMode::ABSOLUTEX, 3, 7, OopsCycle::NONE, f_nz))
    } else if opcode == 0xE0 {
        Some((Instructions::CPX, AddressingMode::IMMEDIATE, 2, 2, OopsCycle::NONE, f_nzc))
    } else if opcode == 0xE1 {
        Some((Instructions::SBC, AddressingMode::INDIRECTX, 2, 6, OopsCycle::NONE, f_nzcv))
    } else if opcode == 0xE4 {
        Some((Instructions::CPX, AddressingMode::ZEROPAGE, 2, 3, OopsCycle::NONE, f_nzc))
    } else if opcode == 0xE5 {
        Some((Instructions::SBC, AddressingMode::ZEROPAGE, 2, 3, OopsCycle::NONE, f_nzcv))
    } else if opcode == 0xE6 {
        Some((Instructions::INC, AddressingMode::ZEROPAGE, 2, 5, OopsCycle::NONE, f_nz))
    } else if opcode == 0xE8 {
        Some((Instructions::INX, AddressingMode::IMPLIED, 1, 2, OopsCycle::NONE, f_nz))
    } else if opcode == 0xE9 {
        Some((Instructions::SBC, AddressingMode::IMMEDIATE, 2, 2, OopsCycle::NONE, f_nzcv))
    } else if opcode == 0xEA {
        Some((Instructions::NOP, AddressingMode::IMPLIED, 1, 2, OopsCycle::NONE, f_none))
    } else if opcode == 0xEC {
        Some((Instructions::CPX, AddressingMode::ABSOLUTE, 3, 4, OopsCycle::NONE, f_nzc))
    } else if opcode == 0xED {
        Some((Instructions::SBC, AddressingMode::ABSOLUTE, 3, 4, OopsCycle::NONE, f_nzcv))
    } else if opcode == 0xEE {
        Some((Instructions::INC, AddressingMode::ABSOLUTE, 3, 6, OopsCycle::NONE, f_nz))
    } else if opcode == 0xF0 {
        Some((Instructions::BEQ, AddressingMode::RELATIVE, 2, 2, OopsCycle::BranchOccursOn, f_none))
    } else if opcode == 0xF1 {
        Some((Instructions::SBC, AddressingMode::INDIRECTY, 2, 5, OopsCycle::PageBoundryCrossed, f_nzcv))
    } else if opcode == 0xF5 {
        Some((Instructions::SBC, AddressingMode::ZEROPAGEX, 2, 4, OopsCycle::NONE, f_nzcv))
    } else if opcode == 0xF6 {
        Some((Instructions::INC, AddressingMode::ZEROPAGEX, 2, 6, OopsCycle::NONE, f_nz))
    } else if opcode == 0xF8 {
        Some((Instructions::SED, AddressingMode::IMPLIED, 1, 2, OopsCycle::NONE, f_d1))
    } else if opcode == 0xF9 {
        Some((Instructions::SBC, AddressingMode::ABSOLUTEY, 3, 4, OopsCycle::PageBoundryCrossed, f_nzcv))
    } else if opcode == 0xFD {
        Some((Instructions::SBC, AddressingMode::ABSOLUTEX, 3, 4, OopsCycle::PageBoundryCrossed, f_nzcv))
    } else if opcode == 0xFE {
        Some((Instructions::INC, AddressingMode::ABSOLUTEX, 3, 7, OopsCycle::NONE, f_nz))
    } else {
        None
    }
}

fn decode_q3(opcode: u8) -> (r: Option<DecodedOp>)
    ensures
        r == spec_decode_q3(opcode),
{
    proof {
        reveal(spec_decode_q3);
    }
    let nm = ProcessorStatusRegisterBitChanges::NotModified;
    let mo = ProcessorStatusRegisterBitChanges::MODIFIED;
    let st = ProcessorStatusRegisterBitChanges::SET;
    let cl = ProcessorStatusRegisterBitChanges::CLEARED;
    let fs = ProcessorStatusRegisterBitChanges::FromStack;
    let f_none = (PBitflagsChange { n: nm, z: nm, c: nm, i: nm, d: nm, v: nm });
    let f_c1 = (PBitflagsChange { n: nm, z: nm, c: st, i: nm, d: nm, v: nm });
    let f_c0 = (PBitflagsChange { n: nm, z: nm, c: cl, i: nm, d: nm, v: nm });
    let f_i1 = (PBitflagsChange { n: nm, z: nm, c: nm, i: st, d: nm, v: nm });
    let f_i0 = (PBitflagsChange { n: nm, z: nm, c: nm, i: cl, d: nm, v: nm });
    let f_d1 = (PBitflagsChange { n: nm, z: nm, c: nm, i: nm, d: st, v: nm });
    let f_d0 = (PBitflagsChange { n: nm, z: nm, c: nm, i: nm, d: cl, v: nm });
    let f_v0 = (PBitflagsChange { n: nm, z: nm, c: nm, i: nm, d: nm, v: cl });
    let f_nz = (PBitflagsChange { n: mo, z: mo, c: nm, i: nm, d: nm, v: nm });
    let f_nzc = (PBitflagsChange { n: mo, z: mo, c: mo, i: nm, d: nm, v: nm });
    let f_nzcv = (PBitflagsChange { n: mo, z: mo, c: mo, i: nm, d: nm, v: mo });
    let f_0zc = (PBitflagsChange { n: cl, z: mo, c: mo, i: nm, d: nm, v: nm });
    let f_m7m6 = (PBitflagsChange {
        n: ProcessorStatusRegisterBitChanges::M7,
        z: mo,
        c: nm,
        i: nm,
        d: nm,
        v: ProcessorStatusRegisterBitChanges::M6,
    });
    let f_stack = (PBitflagsChange { n: fs, z: fs, c: fs, i: fs, d: fs, v: fs });

    match opcode {
        0xC0 => Some((Instructions::CPY, AddressingMode::IMMEDIATE, 2, 2, OopsCycle::NONE, f_nzc)),
        0xC1 => Some((Instructions::CMP, AddressingMode::INDIRECTX, 2, 6, OopsCycle::NONE, f_nzc)),
        0xC4 => Some((Instructions::CPY, AddressingMode::ZEROPAGE, 2, 3, OopsCycle::NONE, f_nzc)),
        0xC5 => Some((Instructions::CMP, AddressingMode::ZEROPAGE, 2, 3, OopsCycle::NONE, f_nzc)),
        0xC6 => Some((Instructions::DEC, AddressingMode::ZEROPAGE, 2, 5, OopsCycle::NONE, f_nz)),
        0xC8 => Some((Instructions::INY, AddressingMode::IMPLIED, 1, 2, OopsCycle::NONE, f_nz)),
        0xC9 => Some((Instructions::CMP, AddressingMode::IMMEDIATE, 2, 2, OopsCycle::NONE, f_nzc)),
        0xCA => Some((Instructions::DEX, AddressingMode::IMPLIED, 1, 2, OopsCycle::NONE, f_nz)),
        0xCC => Some((Instructions::CPY, AddressingMode::ABSOLUTE, 3, 4, OopsCycle::NONE, f_nzc)),
        0xCD => Some((Instructions::CMP, AddressingMode::ABSOLUTE, 3, 4, OopsCycle::NONE, f_nzc)),
        0xCE => Some((Instructions::DEC, AddressingMode::ABSOLUTE, 3, 6, OopsCycle::NONE, f_nz)),
        0xD0 => Some((Instructions::BNE, AddressingMode::RELATIVE, 2, 2, OopsCycle::BranchOccursOn, f_none)),
        0xD1 => Some((Instructions::CMP, AddressingMode::INDIRECTY, 2, 5, OopsCycle::PageBoundryCrossed, f_nzc)),
        0xD5 => Some((Instructions::CMP, AddressingMode::ZEROPAGEX, 2, 4, OopsCycle::NONE, f_nzc)),
        0xD6 => Some((Instructions::DEC, AddressingMode::ZEROPAGEX, 2, 6, OopsCycle::NONE, f_nz)),
        0xD8 => Some((Instructions::CLD, AddressingMode::IMPLIED, 1, 2, OopsCycle::NONE, f_d0)),
        0xD9 => Some((Instructions::CMP, AddressingMode::ABSOLUTEY, 3, 4, OopsCycle::PageBoundryCrossed, f_nzc)),
        0xDD => Some((Instructions::CMP, AddressingMode::ABSOLUTEX, 3, 4, OopsCycle::PageBoundryCrossed, f_nzc)),
        0xDE => Some((Instructions::DEC, AddressingMode::ABSOLUTEX, 3, 7, OopsCycle::NONE, f_nz)),
        0xE0 => Some((Instructions::CPX, AddressingMode::IMMEDIATE, 2, 2, OopsCycle::NONE, f_nzc)),
        0xE1 => Some((Instructions::SBC, AddressingMode::INDIRECTX, 2, 6, OopsCycle::NONE, f_nzcv)),
        0xE4 => Some((Instructions::CPX, AddressingMode::ZEROPAGE, 2, 3, OopsCycle::NONE, f_nzc)),
        0xE5 => Some((Instructions::SBC, AddressingMode::ZEROPAGE, 2, 3, OopsCycle::NONE, f_nzcv)),
        0xE6 => Some((Instructions::INC, AddressingMode::ZEROPAGE, 2, 5, OopsCycle::NONE, f_nz)),
        0xE8 => Some((Instructions::INX, AddressingMode::IMPLIED, 1, 2, OopsCycle::NONE, f_nz)),
        0xE9 => Some((Instructions::SBC, AddressingMode::IMMEDIATE, 2, 2, OopsCycle::NONE, f_nzcv)),
        0xEA => Some((Instructions::NOP, AddressingMode::IMPLIED, 1, 2, OopsCycle::NONE, f_none)),
        0xEC => Some((Instructions::CPX, AddressingMode::ABSOLUTE, 3, 4, OopsCycle::NONE, f_nzc)),
        0xED => Some((Instructions::SBC, AddressingMode::ABSOLUTE, 3, 4, OopsCycle::NONE, f_nzcv)),
        0xEE => Some((Instructions::INC, AddressingMode::ABSOLUTE, 3, 6, OopsCycle::NONE, f_nz)),
        0xF0 => Some((Instructions::BEQ, AddressingMode::RELATIVE, 2, 2, OopsCycle::BranchOccursOn, f_none)),
        0xF1 => Some((Instructions::SBC, AddressingMode::INDIRECTY, 2, 5, OopsCycle::PageBoundryCrossed, f_nzcv)),
        0xF5 => Some((Instructions::SBC, AddressingMode::ZEROPAGEX, 2, 4, OopsCycle::NONE, f_nzcv)),
        0xF6 => Some((Instructions::INC, AddressingMode::ZEROPAGEX, 2, 6, OopsCycle::NONE, f_nz)),
        0xF8 => Some((Instructions::SED, AddressingMode::IMPLIED, 1, 2, OopsCycle::NONE, f_d1)),
        0xF9 => Some((Instructions::SBC, AddressingMode::ABSOLUTEY, 3, 4, OopsCycle::PageBoundryCrossed, f_nzcv)),
        0xFD => Some((Instructions::SBC, AddressingMode::ABSOLUTEX, 3, 4, OopsCycle::PageBoundryCrossed, f_nzcv)),
        0xFE => Some((Instructions::INC, AddressingMode::ABSOLUTEX, 3, 7, OopsCycle::NONE, f_nz)),
        _ => None,
    }
}
/// Every documented opcode decodes to a length of 1, 2 or 3 bytes and a base
/// cycle count between 2 and 7.
pub proof fn lemma_decode_lengths_and_cycles(opcode: u8)
    ensures
        spec_decode(opcode) matches Some(d) ==> (1 <= d.2 <= 3 && 2 <= d.3 <= 7),
{
    reveal(spec_decode_q0);
    reveal(spec_decode_q1);
    reveal(spec_decode_q2);
    reveal(spec_decode_q3);
}

} // verus!
