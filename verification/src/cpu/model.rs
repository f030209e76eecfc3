//! The mathematical model of the machine: the CPU-visible memory map and the
//! meaning of every instruction, as spec functions over plain values.
use crate::common::{spec_get_bit, spec_set_bit, CoreError};
use crate::cpu::decoder::{spec_decode, AddressingMode, Instructions};
use vstd::prelude::*;

verus! {

/// Everything a CPU-side memory access can see or change: the three lower
/// memory arrays, the eight PPU ports, the PRG banks and the two active bank
/// selectors.  The APU window is write-only and modelled separately.
#[verifier::ext_equal]
pub ghost struct MemView {
    pub zp: Seq<u8>,
    pub stack: Seq<u8>,
    pub ram: Seq<u8>,
    pub ppu: Seq<u8>,
    pub prg: Seq<Seq<u8>>,
    pub lo: int,
    pub hi: int,
}

impl MemView {
    /// Array lengths as wired, and both bank selectors naming real banks.
    pub open spec fn wf(self) -> bool {
        &&& self.zp.len() == 0x100
        &&& self.stack.len() == 0x100
        &&& self.ram.len() == 0x600
        &&& self.ppu.len() == 8
        &&& 0 <= self.lo < self.prg.len()
        &&& 0 <= self.hi < self.prg.len()
        &&& forall|i: int| 0 <= i < self.prg.len() ==> #[trigger] self.prg[i].len() == 16384
    }

    /// The byte at `a` of the 2 KiB internal RAM, `a` already reduced
    /// modulo 0x800: zero page, then the stack page, then work RAM.
    pub open spec fn lower_read(self, a: int) -> u8 {
        if a < 0x100 {
            self.zp[a]
        } else if a < 0x200 {
            self.stack[a - 0x100]
        } else {
            self.ram[a - 0x200]
        }
    }

    /// The value a read of `addr` returns, per the canonical memory map.
    /// Reserved and battery-backed ranges, and the write-only APU window,
    /// read as zero.
    pub open spec fn read(self, addr: u16) -> u8 {
        if addr < 0x2000 {
            self.lower_read(addr as int % 0x800)
        } else if addr < 0x4000 {
            self.ppu[(addr - 0x2000) % 8]
        } else if addr < 0x8000 {
            0
        } else if addr < 0xC000 {
            self.prg[self.lo][addr - 0x8000]
        } else {
            self.prg[self.hi][addr - 0xC000]
        }
    }

    /// The memory after a read of `addr`: reading the PPU status port
    /// (register index 2) clears its bit 7; nothing else changes.
    pub open spec fn read_upd(self, addr: u16) -> MemView {
        if 0x2000 <= addr < 0x4000 && (addr - 0x2000) % 8 == 2 {
            MemView { ppu: self.ppu.update(2, (self.ppu[2] & 0x7Fu8) as u8), ..self }
        } else {
            self
        }
    }

    /// The memory after a write of `value` to `addr`.  Writes to the reserved
    /// ranges, the battery-backed range, the APU window (held outside this
    /// view) and the cartridge ROM are ignored.
    pub open spec fn write(self, addr: u16, value: u8) -> MemView {
        if addr < 0x2000 {
            let a = addr as int % 0x800;
            if a < 0x100 {
                MemView { zp: self.zp.update(a, value), ..self }
            } else if a < 0x200 {
                MemView { stack: self.stack.update(a - 0x100, value), ..self }
            } else {
                MemView { ram: self.ram.update(a - 0x200, value), ..self }
            }
        } else if addr < 0x4000 {
            MemView { ppu: self.ppu.update((addr - 0x2000) % 8, value), ..self }
        } else {
            self
        }
    }

    /// A composite read of the two bytes at `addr` and `addr + 1`
    /// (wrapping), little-endian.  Status-port side effects of the two reads
    /// are accounted by `read16_upd`.
    pub open spec fn read16(self, addr: u16) -> u16 {
        let lsb = self.read(addr);
        let m1 = self.read_upd(addr);
        let msb = m1.read(w_add16(addr, 1));
        (lsb + msb * 0x100) as u16
    }

    /// The memory after the two reads of `read16`.
    pub open spec fn read16_upd(self, addr: u16) -> MemView {
        self.read_upd(addr).read_upd(w_add16(addr, 1))
    }
}

/// The whole machine as the CPU sees it: registers, cycle counter, the
/// CPU-side memory map, the write-only APU window, and the PPU-side
/// character data.
#[verifier::ext_equal]
pub ghost struct MachineView {
    pub a: u8,
    pub x: u8,
    pub y: u8,
    pub s: u8,
    pub p: u8,
    pub pc: u16,
    pub cycles: u64,
    pub mem: MemView,
    pub apu: Seq<u8>,
    pub chr: Seq<u8>,
}

impl MachineView {
    pub open spec fn wf(self) -> bool {
        &&& self.mem.wf()
        &&& self.apu.len() == 24
        &&& self.chr.len() == 8192
    }

    /// The value a read of `addr` returns.
    pub open spec fn read_val(self, addr: u16) -> u8 {
        self.mem.read(addr)
    }

    /// The machine after one read of `addr` (the PPU status side effect).
    pub open spec fn after_read(self, addr: u16) -> MachineView {
        MachineView { mem: self.mem.read_upd(addr), ..self }
    }

    /// The little-endian pair at `addr`, `addr + 1`.
    pub open spec fn read16_val(self, addr: u16) -> u16 {
        self.mem.read16(addr)
    }

    /// The machine after the two reads of `read16_val`.
    pub open spec fn after_read16(self, addr: u16) -> MachineView {
        MachineView { mem: self.mem.read16_upd(addr), ..self }
    }

    /// The machine after a write of `value` to `addr`; a write into
    /// 0x4000-0x4017 lands in the APU window instead of the map.
    pub open spec fn write(self, addr: u16, value: u8) -> MachineView {
        let m2 = MachineView { mem: self.mem.write(addr, value), ..self };
        if 0x4000 <= addr < 0x4018 {
            MachineView { apu: self.apu.update(addr - 0x4000, value), ..m2 }
        } else {
            m2
        }
    }

    /// A push: the byte lands at 0x0100 + S, then S decrements, wrapping.
    pub open spec fn push(self, data: u8) -> MachineView {
        let m = self.write((0x100 + self.s) as u16, data);
        MachineView { s: w_sub8(self.s, 1), ..m }
    }

    /// A pull: S increments, wrapping, then the byte at 0x0100 + S is read.
    pub open spec fn pull(self) -> (u8, MachineView) {
        let s2 = w_add8(self.s, 1);
        let addr = (0x100 + s2) as u16;
        let value = self.read_val(addr);
        let m = self.after_read(addr);
        (value, MachineView { s: s2, ..m })
    }

    /// Pushes `pc + offset`, high byte first.
    pub open spec fn push_pc(self, offset: u16) -> MachineView {
        let target = w_add16(self.pc, offset);
        self.push((target >> 8u16) as u8).push((target & 0xFFu16) as u8)
    }

    /// Pulls a 16-bit address, low byte first.
    pub open spec fn pull_pc(self) -> (u16, MachineView) {
        let (lsb, m1) = self.pull();
        let (msb, m2) = m1.pull();
        (((lsb + msb * 0x100) as u16), m2)
    }
}

/// Addition modulo 2^16.
pub open spec fn w_add16(a: u16, b: u16) -> u16 {
    ((a + b) % 0x10000) as u16
}

/// Addition modulo 2^8.
pub open spec fn w_add8(a: u8, b: u8) -> u8 {
    ((a + b) % 0x100) as u8
}

/// Subtraction modulo 2^8.
pub open spec fn w_sub8(a: u8, b: u8) -> u8 {
    (((a - b) + 0x100) % 0x100) as u8
}

/// The signed value of a two's-complement byte.
pub open spec fn sign_of(b: u8) -> int {
    if b < 0x80 {
        b as int
    } else {
        b - 0x100
    }
}

/// `pc` displaced by the signed byte `off`, wrapping in 16 bits.
pub open spec fn w_add16_signed(pc: u16, off: u8) -> u16 {
    ((pc + sign_of(off) + 0x10000) % 0x10000) as u16
}

/// Addition modulo 2^64.
pub open spec fn w_add64(a: u64, b: u64) -> u64 {
    ((a + b) % 0x1_0000_0000_0000_0000) as u64
}

/// The binary-coded-decimal rendering of a value below 100: tens digit in the
/// high nibble, ones digit in the low nibble.  Larger values pass through.
pub open spec fn spec_decimal(data: u8) -> u8 {
    if data < 100 {
        ((data / 10) * 16 + data % 10) as u8
    } else {
        data
    }
}

/// The status byte after a compare of register `reg` against memory `m`:
/// negative from bit 7 of the wrapped difference, zero on equality, carry on
/// `reg >= m`.
pub open spec fn spec_cmp_flags(p: u8, reg: u8, m: u8) -> u8 {
    let d = w_sub8(reg, m);
    spec_set_bit(spec_set_bit(spec_set_bit(p, 7, d >> 7u8 == 1), 1, reg == m), 0, reg >= m)
}

/// Whether the named conditional branch is taken under status byte `p`.
pub open spec fn spec_branch_taken(instr: Instructions, p: u8) -> bool {
    match instr {
        Instructions::BMI => spec_get_bit(p, 7),
        Instructions::BPL => !spec_get_bit(p, 7),
        Instructions::BNE => !spec_get_bit(p, 1),
        Instructions::BVC => !spec_get_bit(p, 6),
        Instructions::BVS => spec_get_bit(p, 6),
        Instructions::BEQ => spec_get_bit(p, 1),
        Instructions::BCS => spec_get_bit(p, 0),
        Instructions::BCC => !spec_get_bit(p, 0),
        _ => false,
    }
}

/// The instructions that assign the program counter themselves; `tick` does
/// not add the instruction length after one of these.
pub open spec fn spec_reassigns_pc(instr: Instructions) -> bool {
    match instr {
        Instructions::JMP => true,
        Instructions::JSR => true,
        Instructions::RTS => true,
        Instructions::RTI => true,
        Instructions::BRK => true,
        _ => false,
    }
}

/// The machine after adding `m` (and the carry flag) into the accumulator.
/// With `decimal_ok` and the decimal flag set, the result is rendered as
/// binary-coded decimal; carry comes from the binary sum, negative, zero and
/// overflow from the stored result.
pub open spec fn spec_add_with_carry(v: MachineView, m: u8, decimal_ok: bool) -> MachineView {
    let a = v.a;
    let c: int = if spec_get_bit(v.p, 0) {
        1
    } else {
        0
    };
    let sum = a + m + c;
    let r0 = (sum % 256) as u8;
    let r = if decimal_ok && spec_get_bit(v.p, 3) {
        spec_decimal(r0)
    } else {
        r0
    };
    let carry = sum > 255;
    let a_neg = a >> 7u8 == 1;
    let m_neg = m >> 7u8 == 1;
    let r_neg = r >> 7u8 == 1;
    let over = (a_neg && m_neg && !r_neg) || (!a_neg && !m_neg && r_neg);
    let p2 = spec_set_bit(
        spec_set_bit(spec_set_bit(spec_set_bit(v.p, 7, r_neg), 1, r == 0), 0, carry),
        6,
        over,
    );
    MachineView { a: r, p: p2, ..v }
}

/// The address an addressing mode names, together with the machine after the
/// operand reads; `None` for modes that name no address.
pub open spec fn spec_operand_addr(v: MachineView, mode: AddressingMode) -> Option<
    (u16, MachineView),
> {
    let pc1 = w_add16(v.pc, 1);
    match mode {
        AddressingMode::ABSOLUTE => Some((v.read16_val(pc1), v.after_read16(pc1))),
        AddressingMode::ABSOLUTEX => Some(
            (w_add16(v.read16_val(pc1), v.x as u16), v.after_read16(pc1)),
        ),
        AddressingMode::ABSOLUTEY => Some(
            (w_add16(v.read16_val(pc1), v.y as u16), v.after_read16(pc1)),
        ),
        AddressingMode::ZEROPAGE => Some((v.read_val(pc1) as u16, v.after_read(pc1))),
        AddressingMode::ZEROPAGEX => Some(
            (w_add8(v.read_val(pc1), v.x) as u16, v.after_read(pc1)),
        ),
        AddressingMode::ZEROPAGEY => Some(
            (w_add8(v.read_val(pc1), v.y) as u16, v.after_read(pc1)),
        ),
        AddressingMode::INDIRECT => {
            let ptr = v.read16_val(pc1);
            let v1 = v.after_read16(pc1);
            Some((v1.read16_val(ptr), v1.after_read16(ptr)))
        },
        AddressingMode::INDIRECTX => {
            let zp = w_add8(v.read_val(pc1), v.x);
            let v1 = v.after_read(pc1);
            Some((v1.read16_val(zp as u16), v1.after_read16(zp as u16)))
        },
        AddressingMode::INDIRECTY => {
            let zp = v.read_val(pc1);
            let v1 = v.after_read(pc1);
            Some((w_add16(v1.read16_val(zp as u16), v.y as u16), v1.after_read16(zp as u16)))
        },
        _ => None,
    }
}

/// The operand byte an addressing mode fetches, together with the machine
/// after the reads; `None` for modes that fetch no byte.
pub open spec fn spec_fetch(v: MachineView, mode: AddressingMode) -> Option<(u8, MachineView)> {
    let pc1 = w_add16(v.pc, 1);
    match mode {
        AddressingMode::IMMEDIATE => Some((v.read_val(pc1), v.after_read(pc1))),
        AddressingMode::ACCUMULATOR => Some((v.a, v)),
        AddressingMode::IMPLIED => None,
        AddressingMode::RELATIVE => None,
        AddressingMode::INDIRECT => None,
        _ => match spec_operand_addr(v, mode) {
            Some((addr, v1)) => Some((v1.read_val(addr), v1.after_read(addr))),
            None => None,
        },
    }
}

/// The status byte with negative and zero set from `value`.
pub open spec fn spec_nz(p: u8, value: u8) -> u8 {
    crate::cpu::registers::spec_modify_nz(p, value)
}

/// The outcome of executing one decoded instruction: the result the executor
/// reports, and the machine it leaves.  The machine is unchanged on an error.
#[verifier::opaque]
pub open spec fn spec_execute(v: MachineView, instr: Instructions, mode: AddressingMode) -> (
    Result<(), CoreError>,
    MachineView,
) {
    match instr {
        Instructions::LDA | Instructions::LDX | Instructions::LDY => spec_exec_load(
            v,
            instr,
            mode,
        ),
        Instructions::STA | Instructions::STX | Instructions::STY => spec_exec_store(
            v,
            instr,
            mode,
        ),
        Instructions::INC | Instructions::DEC => spec_exec_incdec(v, instr, mode),
        Instructions::ASL | Instructions::LSR | Instructions::ROL | Instructions::ROR
            => spec_exec_shift_op(v, instr, mode),
        Instructions::AND | Instructions::ORA | Instructions::EOR => spec_exec_logic(
            v,
            instr,
            mode,
        ),
        Instructions::ADC | Instructions::SBC => spec_exec_arith(v, instr, mode),
        Instructions::CMP | Instructions::CPX | Instructions::CPY => spec_exec_compare(
            v,
            instr,
            mode,
        ),
        Instructions::BIT => spec_exec_bit_test(v, instr, mode),
        Instructions::BMI | Instructions::BPL | Instructions::BNE | Instructions::BVC
            | Instructions::BVS | Instructions::BEQ | Instructions::BCS | Instructions::BCC
            => spec_exec_branch(v, instr, mode),
        Instructions::JMP | Instructions::JSR => spec_exec_jump(v, instr, mode),
        Instructions::RTS | Instructions::RTI => spec_exec_return(v, instr, mode),
        Instructions::BRK => spec_exec_break(v, instr, mode),
        Instructions::TAX | Instructions::TAY | Instructions::TSX | Instructions::TXA
            | Instructions::TYA | Instructions::TXS => spec_exec_transfer(v, instr, mode),
        Instructions::INX | Instructions::INY | Instructions::DEX | Instructions::DEY
            => spec_exec_index_step(v, instr, mode),
        Instructions::PHA | Instructions::PHP | Instructions::PLA | Instructions::PLP
            => spec_exec_stack_op(v, instr, mode),
        _ => spec_exec_flag_op(v, instr, mode),
    }
}


/// The register loads.
pub open spec fn spec_exec_load(v: MachineView, instr: Instructions, mode: AddressingMode) -> (
    Result<(), CoreError>,
    MachineView,
) {
    let illegal = (Err::<(), CoreError>(CoreError::IllegalAddressingModeForInstruction), v);
    match instr {
        Instructions::LDA | Instructions::LDX | Instructions::LDY => match spec_fetch(v, mode) {
            None => illegal,
            Some((m, v1)) => {
                let v2 = if instr is LDX {
                    MachineView { x: m, ..v1 }
                } else if instr is LDY {
                    MachineView { y: m, ..v1 }
                } else {
                    MachineView { a: m, ..v1 }
                };
                (Ok(()), MachineView { p: spec_nz(v2.p, m), ..v2 })
            },
        },
        _ => illegal,
    }
}

/// The register stores.
pub open spec fn spec_exec_store(v: MachineView, instr: Instructions, mode: AddressingMode) -> (
    Result<(), CoreError>,
    MachineView,
) {
    let illegal = (Err::<(), CoreError>(CoreError::IllegalAddressingModeForInstruction), v);
    match instr {
        Instructions::STA | Instructions::STX | Instructions::STY => match spec_operand_addr(
            v,
            mode,
        ) {
            None => illegal,
            Some((addr, v1)) => {
                let data = if instr is STX {
                    v.x
                } else if instr is STY {
                    v.y
                } else {
                    v.a
                };
                (Ok(()), v1.write(addr, data))
            },
        },
        _ => illegal,
    }
}

/// The memory increment and decrement.
pub open spec fn spec_exec_incdec(v: MachineView, instr: Instructions, mode: AddressingMode) -> (
    Result<(), CoreError>,
    MachineView,
) {
    let illegal = (Err::<(), CoreError>(CoreError::IllegalAddressingModeForInstruction), v);
    match instr {
        Instructions::INC | Instructions::DEC => match spec_operand_addr(v, mode) {
            None => illegal,
            Some((addr, v1)) => {
                let m = v1.read_val(addr);
                let v2 = v1.after_read(addr);
                let r = if instr is INC {
                    w_add8(m, 1)
                } else {
                    w_sub8(m, 1)
                };
                let v3 = v2.write(addr, r);
                (Ok(()), MachineView { p: spec_nz(v3.p, r), ..v3 })
            },
        },
        _ => illegal,
    }
}

/// The shifts and rotates, on the accumulator or on memory.
pub open spec fn spec_exec_shift_op(v: MachineView, instr: Instructions, mode: AddressingMode) -> (
    Result<(), CoreError>,
    MachineView,
) {
    let illegal = (Err::<(), CoreError>(CoreError::IllegalAddressingModeForInstruction), v);
    match instr {
        Instructions::ASL | Instructions::LSR | Instructions::ROL | Instructions::ROR => {
            let c_in: u8 = if spec_get_bit(v.p, 0) {
                1
            } else {
                0
            };
            if mode is ACCUMULATOR {
                let m = v.a;
                let (r, c_out) = spec_shift(instr, m, c_in);
                (
                    Ok(()),
                    MachineView { a: r, p: spec_set_bit(spec_nz(v.p, r), 0, c_out), ..v },
                )
            } else {
                match spec_operand_addr(v, mode) {
                    None => illegal,
                    Some((addr, v1)) => {
                        let m = v1.read_val(addr);
                        let v2 = v1.after_read(addr);
                        let (r, c_out) = spec_shift(instr, m, c_in);
                        let v3 = v2.write(addr, r);
                        (
                            Ok(()),
                            MachineView { p: spec_set_bit(spec_nz(v3.p, r), 0, c_out), ..v3 },
                        )
                    },
                }
            }
        },
        _ => illegal,
    }
}


/// The three compares.
pub open spec fn spec_exec_compare(v: MachineView, instr: Instructions, mode: AddressingMode) -> (
    Result<(), CoreError>,
    MachineView,
) {
    let illegal = (Err::<(), CoreError>(CoreError::IllegalAddressingModeForInstruction), v);
    match instr {
        Instructions::CMP | Instructions::CPX | Instructions::CPY => match spec_fetch(v, mode) {
            None => illegal,
            Some((m, v1)) => {
                let reg = if instr is CPX {
                    v.x
                } else if instr is CPY {
                    v.y
                } else {
                    v.a
                };
                (Ok(()), MachineView { p: spec_cmp_flags(v1.p, reg, m), ..v1 })
            },
        },
        _ => illegal,
    }
}

/// The accumulator logic instructions.
pub open spec fn spec_exec_logic(v: MachineView, instr: Instructions, mode: AddressingMode) -> (
    Result<(), CoreError>,
    MachineView,
) {
    let illegal = (Err::<(), CoreError>(CoreError::IllegalAddressingModeForInstruction), v);
    match instr {
        Instructions::AND | Instructions::ORA | Instructions::EOR => match spec_fetch(v, mode) {
            None => illegal,
            Some((m, v1)) => {
                let r = if instr is AND {
                    v.a & m
                } else if instr is ORA {
                    v.a | m
                } else {
                    v.a ^ m
                };
                (Ok(()), MachineView { a: r, p: spec_nz(v1.p, r), ..v1 })
            },
        },
        _ => illegal,
    }
}

/// Add-with-carry and subtract-with-carry.
pub open spec fn spec_exec_arith(v: MachineView, instr: Instructions, mode: AddressingMode) -> (
    Result<(), CoreError>,
    MachineView,
) {
    let illegal = (Err::<(), CoreError>(CoreError::IllegalAddressingModeForInstruction), v);
    match instr {
        Instructions::ADC => match spec_fetch(v, mode) {
            None => illegal,
            Some((m, v1)) => (Ok(()), spec_add_with_carry(v1, m, true)),
        },
        Instructions::SBC => match spec_fetch(v, mode) {
            None => illegal,
            Some((m, v1)) => (Ok(()), spec_add_with_carry(v1, !m, false)),
        },
        _ => illegal,
    }
}

/// The bit test.
pub open spec fn spec_exec_bit_test(v: MachineView, instr: Instructions, mode: AddressingMode) -> (
    Result<(), CoreError>,
    MachineView,
) {
    let illegal = (Err::<(), CoreError>(CoreError::IllegalAddressingModeForInstruction), v);
    match instr {
        Instructions::BIT => match spec_fetch(v, mode) {
            None => illegal,
            Some((m, v1)) => {
                let p2 = spec_set_bit(
                    spec_set_bit(spec_set_bit(v1.p, 7, m >> 7u8 == 1), 6, (m >> 6u8) & 1 == 1),
                    1,
                    v.a & m == 0,
                );
                (Ok(()), MachineView { p: p2, ..v1 })
            },
        },
        _ => illegal,
    }
}


/// The eight conditional branches.
pub open spec fn spec_exec_branch(v: MachineView, instr: Instructions, mode: AddressingMode) -> (
    Result<(), CoreError>,
    MachineView,
) {
    let illegal = (Err::<(), CoreError>(CoreError::IllegalAddressingModeForInstruction), v);
    match instr {
        Instructions::BMI | Instructions::BPL | Instructions::BNE | Instructions::BVC
            | Instructions::BVS | Instructions::BEQ | Instructions::BCS | Instructions::BCC => {
            if spec_branch_taken(instr, v.p) {
                let pc1 = w_add16(v.pc, 1);
                let off = v.read_val(pc1);
                let v1 = v.after_read(pc1);
                (Ok(()), MachineView { pc: w_add16_signed(v1.pc, off), ..v1 })
            } else {
                (Ok(()), v)
            }
        },
        _ => illegal,
    }
}

/// The jumps, plain and to subroutine.
pub open spec fn spec_exec_jump(v: MachineView, instr: Instructions, mode: AddressingMode) -> (
    Result<(), CoreError>,
    MachineView,
) {
    let illegal = (Err::<(), CoreError>(CoreError::IllegalAddressingModeForInstruction), v);
    match instr {
        Instructions::JMP => match spec_operand_addr(v, mode) {
            None => illegal,
            Some((addr, v1)) => (Ok(()), MachineView { pc: addr, ..v1 }),
        },
        Instructions::JSR => match spec_operand_addr(v, mode) {
            None => illegal,
            Some((addr, v1)) => {
                let v2 = v1.push_pc(2);
                (Ok(()), MachineView { pc: addr, ..v2 })
            },
        },
        _ => illegal,
    }
}

/// The returns from subroutine and from interrupt.
pub open spec fn spec_exec_return(v: MachineView, instr: Instructions, mode: AddressingMode) -> (
    Result<(), CoreError>,
    MachineView,
) {
    let illegal = (Err::<(), CoreError>(CoreError::IllegalAddressingModeForInstruction), v);
    match instr {
        Instructions::RTS => {
            let (addr, v1) = v.pull_pc();
            (Ok(()), MachineView { pc: w_add16(addr, 1), ..v1 })
        },
        Instructions::RTI => {
            let (pf, v1) = v.pull();
            let p2 = spec_set_bit(pf, 4, !spec_get_bit(pf, 4));
            let (addr, v2) = v1.pull_pc();
            (Ok(()), MachineView { p: p2, pc: addr, ..v2 })
        },
        _ => illegal,
    }
}

/// The software interrupt.
pub open spec fn spec_exec_break(v: MachineView, instr: Instructions, mode: AddressingMode) -> (
    Result<(), CoreError>,
    MachineView,
) {
    let illegal = (Err::<(), CoreError>(CoreError::IllegalAddressingModeForInstruction), v);
    match instr {
        Instructions::BRK => {
            let v1 = v.push_pc(2);
            let v2 = v1.push(spec_set_bit(v1.p, 4, true));
            let p2 = spec_set_bit(v2.p, 2, true);
            let vector = v2.read16_val(0xFFFE);
            let v3 = v2.after_read16(0xFFFE);
            (Ok(()), MachineView { p: p2, pc: vector, ..v3 })
        },
        _ => illegal,
    }
}


/// The register transfers.
pub open spec fn spec_exec_transfer(v: MachineView, instr: Instructions, mode: AddressingMode) -> (
    Result<(), CoreError>,
    MachineView,
) {
    let illegal = (Err::<(), CoreError>(CoreError::IllegalAddressingModeForInstruction), v);
    match instr {
        Instructions::TAX => (
            Ok(()),
            MachineView { x: v.a, p: spec_nz(v.p, v.a), ..v },
        ),
        Instructions::TAY => (
            Ok(()),
            MachineView { y: v.a, p: spec_nz(v.p, v.a), ..v },
        ),
        Instructions::TSX => (
            Ok(()),
            MachineView { x: v.s, p: spec_nz(v.p, v.s), ..v },
        ),
        Instructions::TXA => (
            Ok(()),
            MachineView { a: v.x, p: spec_nz(v.p, v.x), ..v },
        ),
        Instructions::TYA => (
            Ok(()),
            MachineView { a: v.y, p: spec_nz(v.p, v.y), ..v },
        ),
        Instructions::TXS => (Ok(()), MachineView { s: v.x, ..v }),
        _ => illegal,
    }
}

/// The index register increments and decrements.
pub open spec fn spec_exec_index_step(v: MachineView, instr: Instructions, mode: AddressingMode) -> (
    Result<(), CoreError>,
    MachineView,
) {
    let illegal = (Err::<(), CoreError>(CoreError::IllegalAddressingModeForInstruction), v);
    match instr {
        Instructions::INX => {
            let r = w_add8(v.x, 1);
            (Ok(()), MachineView { x: r, p: spec_nz(v.p, r), ..v })
        },
        Instructions::INY => {
            let r = w_add8(v.y, 1);
            (Ok(()), MachineView { y: r, p: spec_nz(v.p, r), ..v })
        },
        Instructions::DEX => {
            let r = w_sub8(v.x, 1);
            (Ok(()), MachineView { x: r, p: spec_nz(v.p, r), ..v })
        },
        Instructions::DEY => {
            let r = w_sub8(v.y, 1);
            (Ok(()), MachineView { y: r, p: spec_nz(v.p, r), ..v })
        },
        _ => illegal,
    }
}

/// The stack pushes and pulls.
pub open spec fn spec_exec_stack_op(v: MachineView, instr: Instructions, mode: AddressingMode) -> (
    Result<(), CoreError>,
    MachineView,
) {
    let illegal = (Err::<(), CoreError>(CoreError::IllegalAddressingModeForInstruction), v);
    match instr {
        Instructions::PHA => (Ok(()), v.push(v.a)),
        Instructions::PHP => (Ok(()), v.push(v.p)),
        Instructions::PLA => {
            let (m, v1) = v.pull();
            (Ok(()), MachineView { a: m, p: spec_nz(v1.p, m), ..v1 })
        },
        Instructions::PLP => {
            let (m, v1) = v.pull();
            (Ok(()), MachineView { p: spec_set_bit(m, 4, !spec_get_bit(m, 4)), ..v1 })
        },
        _ => illegal,
    }
}

/// The flag writes and no-operation.
pub open spec fn spec_exec_flag_op(v: MachineView, instr: Instructions, mode: AddressingMode) -> (
    Result<(), CoreError>,
    MachineView,
) {
    let illegal = (Err::<(), CoreError>(CoreError::IllegalAddressingModeForInstruction), v);
    match instr {
        Instructions::SEC => (Ok(()), MachineView { p: spec_set_bit(v.p, 0, true), ..v }),
        Instructions::CLC => (Ok(()), MachineView { p: spec_set_bit(v.p, 0, false), ..v }),
        Instructions::SED => (Ok(()), MachineView { p: spec_set_bit(v.p, 3, true), ..v }),
        Instructions::CLD => (Ok(()), MachineView { p: spec_set_bit(v.p, 3, false), ..v }),
        Instructions::SEI => (Ok(()), MachineView { p: spec_set_bit(v.p, 2, true), ..v }),
        Instructions::CLI => (Ok(()), MachineView { p: spec_set_bit(v.p, 2, false), ..v }),
        Instructions::CLV => (Ok(()), MachineView { p: spec_set_bit(v.p, 6, false), ..v }),
        Instructions::NOP => (Ok(()), v),
        _ => illegal,
    }
}


/// The result and carry of one shift or rotate step on `m`.
pub open spec fn spec_shift(instr: Instructions, m: u8, c_in: u8) -> (u8, bool) {
    match instr {
        Instructions::ASL => (((m as int * 2) % 256) as u8, m >> 7u8 == 1),
        Instructions::LSR => (m >> 1u8, m & 1 == 1),
        Instructions::ROL => ((((m as int * 2) % 256) as u8 | c_in) as u8, m >> 7u8 == 1),
        _ => (((m >> 1u8) | ((c_in * 0x80) as u8)) as u8, m & 1 == 1),
    }
}

/// One whole `tick`: fetch the opcode at PC, decode it, execute it, advance
/// PC by the instruction length unless the instruction assigned PC itself,
/// and add the base cycles.
pub open spec fn spec_tick(v: MachineView) -> (Result<(), CoreError>, MachineView) {
    let op = v.read_val(v.pc);
    let v0 = v.after_read(v.pc);
    match spec_decode(op) {
        None => (Err(CoreError::UnknownOpcode(op)), v0),
        Some(d) => {
            let (res, v1) = spec_execute(v0, d.0, d.1);
            match res {
                Err(e) => (Err(e), v1),
                Ok(()) => {
                    let v2 = if spec_reassigns_pc(d.0) {
                        v1
                    } else {
                        MachineView { pc: w_add16(v1.pc, d.2 as u16), ..v1 }
                    };
                    (Ok(()), MachineView { cycles: w_add64(v2.cycles, d.3 as u64), ..v2 })
                },
            }
        },
    }
}

/// The reset entry point: registers cleared, S at 0xFF, the unused status
/// bit kept at 1, PC loaded from the vector at 0xFFFC, eight cycles.
pub open spec fn spec_res_interrupt(v: MachineView) -> MachineView {
    let vector = v.read16_val(0xFFFC);
    let v1 = v.after_read16(0xFFFC);
    MachineView {
        a: 0,
        x: 0,
        y: 0,
        s: 0xFF,
        p: 0x20,
        pc: vector,
        cycles: w_add64(v.cycles, 8),
        ..v1
    }
}

/// The non-maskable interrupt: PC pushed, status pushed with break clear and
/// interrupt-disable set, PC loaded from the vector at 0xFFFA, eight cycles.
pub open spec fn spec_nmi_interrupt(v: MachineView) -> MachineView {
    let v1 = v.push_pc(0);
    let p2 = spec_set_bit(spec_set_bit(v1.p, 4, false), 2, true);
    let v2 = MachineView { p: p2, ..v1 }.push(p2);
    let vector = v2.read16_val(0xFFFA);
    let v3 = v2.after_read16(0xFFFA);
    MachineView { pc: vector, cycles: w_add64(v.cycles, 8), ..v3 }
}

/// The maskable interrupt: ignored while interrupt-disable is set, otherwise
/// as the non-maskable one but through the vector at 0xFFFE and seven cycles.
pub open spec fn spec_irq_interrupt(v: MachineView) -> MachineView {
    if spec_get_bit(v.p, 2) {
        v
    } else {
        let v1 = v.push_pc(0);
        let p2 = spec_set_bit(spec_set_bit(v1.p, 4, false), 2, true);
        let v2 = MachineView { p: p2, ..v1 }.push(p2);
        let vector = v2.read16_val(0xFFFE);
        let v3 = v2.after_read16(0xFFFE);
        MachineView { pc: vector, cycles: w_add64(v.cycles, 7), ..v3 }
    }
}

/// Executing an instruction that neither assigns the program counter itself
/// nor is a taken conditional branch leaves the program counter where it was.
pub proof fn lemma_execute_pc_unchanged(v: MachineView, instr: Instructions, mode: AddressingMode)
    requires
        !spec_reassigns_pc(instr),
        !spec_branch_taken(instr, v.p),
    ensures
        spec_execute(v, instr, mode).1.pc == v.pc,
{
    reveal(spec_execute);
}

/// After any successful tick that is not a control transfer — the decoded
/// instruction neither assigns the program counter itself nor is a taken
/// conditional branch — the program counter has advanced by exactly the
/// instruction's byte length, modulo 2^16.
pub proof fn lemma_tick_pc_advance(v: MachineView)
    requires
        spec_decode(v.read_val(v.pc)) is Some,
        !spec_reassigns_pc(spec_decode(v.read_val(v.pc))->Some_0.0),
        !spec_branch_taken(spec_decode(v.read_val(v.pc))->Some_0.0, v.p),
        spec_tick(v).0 is Ok,
    ensures
        spec_tick(v).1.pc == w_add16(v.pc, spec_decode(v.read_val(v.pc))->Some_0.2 as u16),
{
    let d = spec_decode(v.read_val(v.pc))->Some_0;
    lemma_execute_pc_unchanged(v.after_read(v.pc), d.0, d.1);
}

/// The stack pointer stays a single byte under every push and pull: a push
/// moves it down by one and a pull up by one, each wrapping modulo 256, so
/// any sequence of pushes and pulls keeps it within 0..=255.  A pull right
/// after a push returns the pushed byte and restores the pointer.
pub proof fn lemma_stack_push_pull(v: MachineView, data: u8)
    requires
        v.wf(),
    ensures
        v.push(data).s == w_sub8(v.s, 1),
        v.pull().1.s == w_add8(v.s, 1),
        0 <= v.push(data).s <= 255 && 0 <= v.pull().1.s <= 255,
        v.push(data).pull().0 == data,
        v.push(data).pull().1.s == v.s,
{
    assert(v.push(data).mem.stack[v.s as int] == data);
    assert(w_add8(w_sub8(v.s, 1), 1) == v.s);
}

/// For every byte `m` loaded by `LDA` immediate (opcode 0xA9), the
/// accumulator afterwards holds `m`, the negative flag equals bit 7 of `m`,
/// and the zero flag equals `m == 0`.
pub proof fn lemma_lda_flags(v: MachineView)
    requires
        v.read_val(v.pc) == 0xA9,
    ensures
        ({
            let m = v.after_read(v.pc).read_val(w_add16(v.pc, 1));
            let v2 = spec_tick(v).1;
            &&& spec_tick(v).0 is Ok
            &&& v2.a == m
            &&& spec_get_bit(v2.p, 7) == (m & 0x80 != 0)
            &&& spec_get_bit(v2.p, 1) == (m == 0)
        }),
{
    reveal(spec_execute);
    reveal(crate::cpu::decoder::spec_decode_q2);
    let m = v.after_read(v.pc).read_val(w_add16(v.pc, 1));
    let p = v.p;
    assert(spec_get_bit(spec_set_bit(spec_set_bit(p, 7, m >> 7u8 == 1), 1, m == 0), 7) == (m
        & 0x80 != 0) && spec_get_bit(spec_set_bit(spec_set_bit(p, 7, m >> 7u8 == 1), 1, m == 0), 1)
        == (m == 0)) by (bit_vector);
}

/// For all `a`, `m` and carry-in, a binary-mode `ADC` (the decimal flag
/// clear) stores `(a + m + c_in) mod 256` in the accumulator and sets the
/// carry flag exactly when `a + m + c_in` reaches 256.  With the decimal
/// flag set the stored byte is decimal-adjusted instead, so that input is
/// left out here.
pub proof fn lemma_adc_sum_and_carry(v: MachineView, m: u8)
    requires
        !spec_get_bit(v.p, 3),
    ensures
        ({
            let c_in: int = if spec_get_bit(v.p, 0) {
                1
            } else {
                0
            };
            let v2 = spec_add_with_carry(v, m, true);
            &&& v2.a == (v.a + m + c_in) % 256
            &&& spec_get_bit(v2.p, 0) == (v.a + m + c_in >= 256)
        }),
{
    let c_in: int = if spec_get_bit(v.p, 0) {
        1
    } else {
        0
    };
    let sum = v.a + m + c_in;
    let r = ((sum % 256) as u8);
    let p = v.p;
    assert forall|n: bool, z: bool, c: bool, o: bool|
        spec_get_bit(
            spec_set_bit(spec_set_bit(spec_set_bit(spec_set_bit(p, 7, n), 1, z), 0, c), 6, o),
            0,
        ) == c by {
        let n0 = n;
        let z0 = z;
        let c0 = c;
        let o0 = o;
        assert(spec_get_bit(
            spec_set_bit(spec_set_bit(spec_set_bit(spec_set_bit(p, 7, n0), 1, z0), 0, c0), 6, o0),
            0,
        ) == c0) by (bit_vector);
    }
}

/// The memory-map mirrors: every address below 0x2000 reads the same byte as
/// that address reduced modulo 0x800, and every address in the PPU window
/// reads port `(addr - 0x2000) mod 8`.
pub proof fn lemma_mmu_mirroring(m: MemView, addr: u16)
    requires
        m.wf(),
    ensures
        addr < 0x2000 ==> m.read(addr) == m.read((addr % 0x800) as u16),
        0x2000 <= addr < 0x4000 ==> m.read(addr) == m.ppu[(addr - 0x2000) % 8],
{
}

/// Reading the PPU status port captures the stored byte and clears its bit 7,
/// so a second immediate read of the same port returns bit 7 as zero.
pub proof fn lemma_ppu_status_read_clears_vblank(m: MemView, addr: u16)
    requires
        m.wf(),
        0x2000 <= addr < 0x4000,
        (addr - 0x2000) % 8 == 2,
    ensures
        m.read_upd(addr).read(addr) == m.read(addr) & 0x7F,
        !spec_get_bit(m.read_upd(addr).read(addr), 7),
{
    let x = m.read(addr);
    assert(!spec_get_bit(x & 0x7F, 7)) by (bit_vector);
}

/// The addressing modes that fetch an operand byte.
pub open spec fn spec_mode_fetches(mode: AddressingMode) -> bool {
    match mode {
        AddressingMode::IMPLIED => false,
        AddressingMode::RELATIVE => false,
        AddressingMode::INDIRECT => false,
        _ => true,
    }
}

/// The addressing modes that name an address.
pub open spec fn spec_mode_addresses(mode: AddressingMode) -> bool {
    match mode {
        AddressingMode::IMPLIED => false,
        AddressingMode::RELATIVE => false,
        AddressingMode::ACCUMULATOR => false,
        AddressingMode::IMMEDIATE => false,
        _ => true,
    }
}

/// Whether the executor supports this instruction under this addressing
/// mode.
pub open spec fn spec_mode_supported(instr: Instructions, mode: AddressingMode) -> bool {
    match instr {
        Instructions::LDA | Instructions::LDX | Instructions::LDY | Instructions::AND
            | Instructions::ORA | Instructions::EOR | Instructions::ADC | Instructions::SBC
            | Instructions::CMP | Instructions::CPX | Instructions::CPY | Instructions::BIT
            => spec_mode_fetches(mode),
        Instructions::STA | Instructions::STX | Instructions::STY | Instructions::INC
            | Instructions::DEC | Instructions::JMP | Instructions::JSR => spec_mode_addresses(
            mode,
        ),
        Instructions::ASL | Instructions::LSR | Instructions::ROL | Instructions::ROR => mode
            is ACCUMULATOR || spec_mode_addresses(mode),
        _ => true,
    }
}

/// Every decoded row pairs its instruction with an addressing mode the
/// executor supports.
pub proof fn lemma_decoded_modes_supported(opcode: u8)
    ensures
        spec_decode(opcode) matches Some(d) ==> spec_mode_supported(d.0, d.1),
{
    reveal(crate::cpu::decoder::spec_decode_q0);
    reveal(crate::cpu::decoder::spec_decode_q1);
    reveal(crate::cpu::decoder::spec_decode_q2);
    reveal(crate::cpu::decoder::spec_decode_q3);
}

/// An addressing mode that names an address always resolves one.
proof fn lemma_operand_addr_some(v: MachineView, mode: AddressingMode)
    requires
        spec_mode_addresses(mode),
    ensures
        spec_operand_addr(v, mode) is Some,
{
}

/// An addressing mode that fetches always yields an operand byte.
proof fn lemma_fetch_some(v: MachineView, mode: AddressingMode)
    requires
        spec_mode_fetches(mode),
    ensures
        spec_fetch(v, mode) is Some,
{
    if !(mode is IMMEDIATE) && !(mode is ACCUMULATOR) {
        lemma_operand_addr_some(v, mode);
    }
}

/// Executing an instruction under an addressing mode the executor supports
/// never reports an addressing-mode disagreement.
pub proof fn lemma_supported_executes(v: MachineView, instr: Instructions, mode: AddressingMode)
    requires
        spec_mode_supported(instr, mode),
    ensures
        spec_execute(v, instr, mode).0 is Ok,
{
    reveal(spec_execute);
    if spec_mode_fetches(mode) {
        lemma_fetch_some(v, mode);
    }
    if spec_mode_addresses(mode) {
        lemma_operand_addr_some(v, mode);
    }
}

/// A tick fails exactly on an undocumented opcode: whenever the byte at PC
/// decodes, the decoder and the executor agree and the tick returns `Ok`.
pub proof fn lemma_tick_fails_only_on_unknown_opcode(v: MachineView)
    ensures
        spec_tick(v).0 is Ok <==> spec_decode(v.read_val(v.pc)) is Some,
        spec_decode(v.read_val(v.pc)) is None ==> spec_tick(v).0 == Result::<
            (),
            CoreError,
        >::Err(CoreError::UnknownOpcode(v.read_val(v.pc))),
{
    let op = v.read_val(v.pc);
    if spec_decode(op) is Some {
        let d = spec_decode(op)->Some_0;
        lemma_decoded_modes_supported(op);
        lemma_supported_executes(v.after_read(v.pc), d.0, d.1);
    }
}

} // verus!
