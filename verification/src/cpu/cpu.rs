//! The CPU core: register file, lower memory, and the fetch/execute loop.
//!
//! Every method is specified against `MachineView`, the mathematical model of
//! the machine in `crate::cpu::model`; `clock_tick` implements `spec_tick`
//! exactly.
use crate::apu::apu::APU;
use crate::cartridge::Cartridge;
use crate::common::CoreError;
use crate::cpu::decoder::{decode_opcode, AddressingMode, Instructions};
use crate::cpu::model::{
    spec_add_with_carry, spec_cmp_flags, spec_decimal, spec_fetch, spec_irq_interrupt,
    spec_nmi_interrupt, spec_operand_addr, spec_res_interrupt, spec_shift, spec_tick, w_add16,
    w_add16_signed, MachineView,
};
use crate::cpu::registers::{ProcessorStatusBits, Registers};
use crate::mmu::{spec_mem_view, MMU};
use crate::ppu::ppu::PPU;
use vstd::prelude::*;

verus! {

/// The 2 KiB of internal CPU memory, split as the address map splits it:
/// zero page, the stack page, and work RAM.
pub struct LowerMemory {
    /// 0x0000-0x00FF.
    pub zero_page: Vec<u8>,
    /// 0x0100-0x01FF.
    pub stack: Vec<u8>,
    /// 0x0200-0x07FF.
    pub ram: Vec<u8>,
}

impl LowerMemory {
    /// The three arrays at their wired sizes.
    pub open spec fn wf(&self) -> bool {
        &&& self.zero_page@.len() == 0x100
        &&& self.stack@.len() == 0x100
        &&& self.ram@.len() == 0x600
    }

    /// All 2 KiB zeroed.
    pub fn new() -> (r: LowerMemory)
        ensures
            r.wf(),
            r.zero_page@ == Seq::new(0x100, |i: int| 0u8),
            r.stack@ == Seq::new(0x100, |i: int| 0u8),
            r.ram@ == Seq::new(0x600, |i: int| 0u8),
    {
        LowerMemory {
            zero_page: crate::common::zero_vec(0x100),
            stack: crate::common::zero_vec(0x100),
            ram: crate::common::zero_vec(0x600),
        }
    }
}

/// The CPU, owning every component it drives.
pub struct CPU {
    pub registers: Registers,
    pub cycles: u64,
    pub mmu: MMU,
    pub cartridge: Cartridge,
    pub ppu: PPU,
    pub lower_memory: LowerMemory,
    pub apu: APU,
}

impl View for CPU {
    type V = MachineView;

    open spec fn view(&self) -> MachineView {
        MachineView {
            a: self.registers.A,
            x: self.registers.X,
            y: self.registers.Y,
            s: self.registers.S,
            p: self.registers.P.flags,
            pc: self.registers.PC,
            cycles: self.cycles,
            mem: spec_mem_view(self.mmu, self.cartridge, self.ppu, self.lower_memory),
            apu: self.apu.registers@,
            chr: self.ppu.chr_rom@,
        }
    }
}

impl CPU {
    /// Every component well-formed and the MMU wired to banks the cartridge
    /// has.
    pub open spec fn wf(&self) -> bool {
        &&& self.lower_memory.wf()
        &&& self.cartridge.wf()
        &&& self.ppu.wf()
        &&& self.apu.wf()
        &&& self.mmu.wf(&self.cartridge)
    }

    /// Reads one byte from the CPU address space through the MMU.
    pub fn read_memory(&mut self, addr: u16) -> (r: u8)
        requires
            old(self).wf(),
        ensures
            final(self).wf(),
            r == old(self)@.read_val(addr),
            final(self)@ == old(self)@.after_read(addr),
    {
        let r = self.mmu.read_request(&self.cartridge, &mut self.ppu, addr, &self.lower_memory);
        proof {
            assert(self@ =~= old(self)@.after_read(addr));
        }
        r
    }

    /// Writes one byte to the CPU address space through the MMU.
    pub fn write_memory(&mut self, addr: u16, value: u8)
        requires
            old(self).wf(),
        ensures
            final(self).wf(),
            final(self)@ == old(self)@.write(addr, value),
    {
        self.mmu.write_request(&mut self.ppu, addr, value, &mut self.lower_memory, &mut self.apu);
        proof {
            assert(self@ =~= old(self)@.write(addr, value));
        }
    }

    /// Reads the little-endian 16-bit value at `addr`, `addr + 1`.
    fn read_address_from_memory(&mut self, addr: u16) -> (r: u16)
        requires
            old(self).wf(),
        ensures
            final(self).wf(),
            r == old(self)@.read16_val(addr),
            final(self)@ == old(self)@.after_read16(addr),
    {
        let lsb = self.read_memory(addr) as u16;
        let msb = self.read_memory(addr.wrapping_add(1)) as u16;
        proof {
            assert(lsb < 0x100 && msb < 0x100 ==> (msb << 8u16) | lsb == (lsb + msb * 0x100) as u16)
                by (bit_vector);
        }
        (msb << 8u16) | lsb
    }

    /// Pushes one byte: it lands at 0x0100 + S, then S decrements, wrapping.
    pub fn push_stack(&mut self, data: u8)
        requires
            old(self).wf(),
        ensures
            final(self).wf(),
            final(self)@ == old(self)@.push(data),
    {
        self.write_memory(0x100 + self.registers.S as u16, data);
        self.registers.S = self.registers.S.wrapping_sub(1);
        proof {
            assert(self@ =~= old(self)@.push(data));
        }
    }

    /// Pulls one byte: S increments, wrapping, then the byte at 0x0100 + S is
    /// read.
    pub fn pop_stack(&mut self) -> (r: u8)
        requires
            old(self).wf(),
        ensures
            final(self).wf(),
            (r, final(self)@) == old(self)@.pull(),
    {
        self.registers.S = self.registers.S.wrapping_add(1);
        let r = self.read_memory(0x100 + self.registers.S as u16);
        proof {
            assert(self@ =~= old(self)@.pull().1);
        }
        r
    }

    /// Pushes `PC + offset`, high byte first.
    fn push_pc(&mut self, offset: u16)
        requires
            old(self).wf(),
        ensures
            final(self).wf(),
            final(self)@ == old(self)@.push_pc(offset),
    {
        let target = self.registers.PC.wrapping_add(offset);
        let pc_msb = (target >> 8u16) as u8;
        let pc_lsb = (target & 0xFF) as u8;
        self.push_stack(pc_msb);
        self.push_stack(pc_lsb);
    }

    /// Pushes the processor status byte.
    fn push_p(&mut self)
        requires
            old(self).wf(),
        ensures
            final(self).wf(),
            final(self)@ == old(self)@.push(old(self)@.p),
    {
        self.push_stack(self.registers.P.flags);
    }

    /// Pulls a 16-bit address, low byte first.
    fn pop_pc(&mut self) -> (r: u16)
        requires
            old(self).wf(),
        ensures
            final(self).wf(),
            (r, final(self)@) == old(self)@.pull_pc(),
    {
        let lsb = self.pop_stack() as u16;
        let msb = self.pop_stack() as u16;
        proof {
            assert(lsb < 0x100 && msb < 0x100 ==> (msb << 8u16) | lsb == (lsb + msb * 0x100) as u16)
                by (bit_vector);
        }
        (msb << 8u16) | lsb
    }

    /// Renders a value below 100 as binary-coded decimal; larger values pass
    /// through.
    fn decimal_mode(&self, data: u8) -> (r: u8)
        ensures
            r == spec_decimal(data),
    {
        if data < 100 {
            (data / 10) * 16 + data % 10
        } else {
            data
        }
    }

    /// Reads the absolute address stored after the opcode.
    fn read_instruction_absolute_address(&mut self) -> (r: u16)
        requires
            old(self).wf(),
        ensures
            final(self).wf(),
            r == old(self)@.read16_val(w_add16(old(self)@.pc, 1)),
            final(self)@ == old(self)@.after_read16(w_add16(old(self)@.pc, 1)),
    {
        let pc1 = self.registers.PC.wrapping_add(1);
        self.read_address_from_memory(pc1)
    }

    /// The absolute address after the opcode, displaced by an index register.
    fn read_instruction_absolute_indexed_address(&mut self, index: u8) -> (r: u16)
        requires
            old(self).wf(),
        ensures
            final(self).wf(),
            r == w_add16(old(self)@.read16_val(w_add16(old(self)@.pc, 1)), index as u16),
            final(self)@ == old(self)@.after_read16(w_add16(old(self)@.pc, 1)),
    {
        let base = self.read_instruction_absolute_address();
        base.wrapping_add(index as u16)
    }

    /// Reads the zero-page address byte stored after the opcode.
    fn read_instruction_zero_page_address(&mut self) -> (r: u8)
        requires
            old(self).wf(),
        ensures
            final(self).wf(),
            r == old(self)@.read_val(w_add16(old(self)@.pc, 1)),
            final(self)@ == old(self)@.after_read(w_add16(old(self)@.pc, 1)),
    {
        let pc1 = self.registers.PC.wrapping_add(1);
        self.read_memory(pc1)
    }

    /// Follows the absolute pointer after the opcode to the address it
    /// stores.
    fn read_instruction_indirect_address(&mut self) -> (r: u16)
        requires
            old(self).wf(),
        ensures
            final(self).wf(),
            ({
                let v = old(self)@;
                let pc1 = w_add16(v.pc, 1);
                let ptr = v.read16_val(pc1);
                let v1 = v.after_read16(pc1);
                r == v1.read16_val(ptr) && final(self)@ == v1.after_read16(ptr)
            }),
    {
        let ptr = self.read_instruction_absolute_address();
        self.read_address_from_memory(ptr)
    }

    /// Resolves the address an addressing mode names, reading the operand
    /// bytes after the opcode; modes that name no address are the decoder's
    /// and executor's disagreement.
    #[verifier::rlimit(60)]
    fn fetch_instruction_address(&mut self, addrmode: AddressingMode) -> (r: Result<
        u16,
        CoreError,
    >)
        requires
            old(self).wf(),
        ensures
            final(self).wf(),
            match r {
                Ok(addr) => spec_operand_addr(old(self)@, addrmode) == Some((addr, final(self)@)),
                Err(e) => {
                    &&& spec_operand_addr(old(self)@, addrmode) is None
                    &&& e == CoreError::IllegalAddressingModeForInstruction
                    &&& final(self)@ == old(self)@
                },
            },
    {
        match addrmode {
            AddressingMode::ABSOLUTE => {
                let addr = self.read_instruction_absolute_address();
                Ok(addr)
            },
            AddressingMode::ABSOLUTEX => {
                let index = self.registers.X;
                Ok(self.read_instruction_absolute_indexed_address(index))
            },
            AddressingMode::ABSOLUTEY => {
                let index = self.registers.Y;
                Ok(self.read_instruction_absolute_indexed_address(index))
            },
            AddressingMode::ZEROPAGE => {
                let zp = self.read_instruction_zero_page_address();
                Ok(zp as u16)
            },
            AddressingMode::ZEROPAGEX => {
                let zp = self.read_instruction_zero_page_address();
                Ok(zp.wrapping_add(self.registers.X) as u16)
            },
            AddressingMode::ZEROPAGEY => {
                let zp = self.read_instruction_zero_page_address();
                Ok(zp.wrapping_add(self.registers.Y) as u16)
            },
            AddressingMode::INDIRECT => {
                let addr = self.read_instruction_indirect_address();
                Ok(addr)
            },
            AddressingMode::INDIRECTX => {
                let zp = self.read_instruction_zero_page_address().wrapping_add(self.registers.X);
                let addr = self.read_address_from_memory(zp as u16);
                Ok(addr)
            },
            AddressingMode::INDIRECTY => {
                let zp = self.read_instruction_zero_page_address();
                let base = self.read_address_from_memory(zp as u16);
                Ok(base.wrapping_add(self.registers.Y as u16))
            },
            _ => Err(CoreError::IllegalAddressingModeForInstruction),
        }
    }

    /// Fetches the operand byte an addressing mode names; modes that fetch no
    /// byte are the decoder's and executor's disagreement.
    fn fetch_memory(&mut self, addrmode: AddressingMode) -> (r: Result<u8, CoreError>)
        requires
            old(self).wf(),
        ensures
            final(self).wf(),
            match r {
                Ok(m) => spec_fetch(old(self)@, addrmode) == Some((m, final(self)@)),
                Err(e) => {
                    &&& spec_fetch(old(self)@, addrmode) is None
                    &&& e == CoreError::IllegalAddressingModeForInstruction
                    &&& final(self)@ == old(self)@
                },
            },
    {
        match addrmode {
            AddressingMode::IMMEDIATE => {
                let pc1 = self.registers.PC.wrapping_add(1);
                Ok(self.read_memory(pc1))
            },
            AddressingMode::ACCUMULATOR => Ok(self.registers.A),
            AddressingMode::IMPLIED => Err(CoreError::IllegalAddressingModeForInstruction),
            AddressingMode::RELATIVE => Err(CoreError::IllegalAddressingModeForInstruction),
            AddressingMode::INDIRECT => Err(CoreError::IllegalAddressingModeForInstruction),
            _ => {
                match self.fetch_instruction_address(addrmode) {
                    Ok(addr) => Ok(self.read_memory(addr)),
                    Err(e) => Err(e),
                }
            },
        }
    }

    /// The program counter displaced by the signed offset byte after the
    /// opcode.
    fn read_instruction_relative_address(&mut self) -> (r: u16)
        requires
            old(self).wf(),
        ensures
            final(self).wf(),
            r == w_add16_signed(old(self)@.pc, old(self)@.read_val(w_add16(old(self)@.pc, 1))),
            final(self)@ == old(self)@.after_read(w_add16(old(self)@.pc, 1)),
    {
        let pc1 = self.registers.PC.wrapping_add(1);
        let offset = self.read_memory(pc1);
        if offset < 0x80 {
            self.registers.PC.wrapping_add(offset as u16)
        } else {
            self.registers.PC.wrapping_add(offset as u16).wrapping_sub(0x100)
        }
    }

    /// Adds `m` and the carry flag into the accumulator, setting negative,
    /// zero, carry and overflow; with `decimal_ok` and the decimal flag set,
    /// the stored result is rendered as binary-coded decimal.
    #[verifier::rlimit(60)]
    fn add_with_carry(&mut self, m: u8, decimal_ok: bool)
        requires
            old(self).wf(),
        ensures
            final(self).wf(),
            final(self)@ == spec_add_with_carry(old(self)@, m, decimal_ok),
    {
        let a = self.registers.A;
        let carry: u8 = if self.registers.P.get(ProcessorStatusBits::CARRY) {
            1
        } else {
            0
        };
        let sum: u16 = a as u16 + m as u16 + carry as u16;
        let r0 = (sum % 256) as u8;
        let result = if decimal_ok && self.registers.P.get(ProcessorStatusBits::DECIMAL) {
            self.decimal_mode(r0)
        } else {
            r0
        };
        self.registers.A = result;
        let new_carry = sum > 255;
        let is_a_negative = (a >> 7u8) == 1;
        let is_m_negative = (m >> 7u8) == 1;
        let is_result_negative = (result >> 7u8) == 1;
        let new_overflow = (is_a_negative && is_m_negative && !is_result_negative) || (
        !is_a_negative && !is_m_negative && is_result_negative);
        self.registers.P.modify_n(result);
        self.registers.P.modify_z(result);
        self.registers.P.set(ProcessorStatusBits::CARRY, new_carry);
        self.registers.P.set(ProcessorStatusBits::OVERFLOW, new_overflow);
    }

    /// One shift or rotate step on `m` with carry-in `c_in`, yielding the
    /// result and the carry out.
    fn shift_value(&self, instr: Instructions, m: u8, c_in: u8) -> (r: (u8, bool))
        requires
            instr == Instructions::ASL || instr == Instructions::LSR || instr == Instructions::ROL
                || instr == Instructions::ROR,
            c_in <= 1,
        ensures
            r == spec_shift(instr, m, c_in),
    {
        proof {
            assert(m << 1u8 == (m as int * 2) % 256) by (bit_vector);
            assert(c_in <= 1 ==> (m << 1u8) | c_in == ((((m as int * 2) % 256) as u8) | c_in) as u8)
                by (bit_vector);
            assert(c_in <= 1 ==> c_in << 7u8 == (c_in * 0x80) as u8) by (bit_vector);
        }
        match instr {
            Instructions::ASL => (m << 1u8, m >> 7u8 == 1),
            Instructions::LSR => (m >> 1u8, m & 1 == 1),
            Instructions::ROL => ((m << 1u8) | c_in, m >> 7u8 == 1),
            _ => ((m >> 1u8) | (c_in << 7u8), m & 1 == 1),
        }
    }

    /// Compares `register` against the fetched operand: negative from bit 7
    /// of the wrapped difference, zero on equality, carry when the register
    /// is not below memory.
    fn exec_cmp(&mut self, addrmode: AddressingMode, register: u8) -> (r: Result<(), CoreError>)
        requires
            old(self).wf(),
        ensures
            final(self).wf(),
            match r {
                Ok(()) => match spec_fetch(old(self)@, addrmode) {
                    Some((m, v1)) => final(self)@ == (MachineView {
                        p: spec_cmp_flags(v1.p, register, m),
                        ..v1
                    }),
                    None => false,
                },
                Err(e) => {
                    &&& spec_fetch(old(self)@, addrmode) is None
                    &&& e == CoreError::IllegalAddressingModeForInstruction
                    &&& final(self)@ == old(self)@
                },
            },
    {
        let fetched_memory = match self.fetch_memory(addrmode) {
            Ok(m) => m,
            Err(e) => {
                return Err(e);
            },
        };
        let sub = register.wrapping_sub(fetched_memory);
        let last_bit = (sub >> 7u8) == 1;
        proof {
            assert(sub == crate::cpu::model::w_sub8(register, fetched_memory));
            assert((0u8 >> 7u8) == 0) by (bit_vector);
        }
        let (new_n, new_z, new_c) = if register < fetched_memory {
            (last_bit, false, false)
        } else if register == fetched_memory {
            (false, true, true)
        } else {
            (last_bit, false, true)
        };
        self.registers.P.set(ProcessorStatusBits::NEGATIVE, new_n);
        self.registers.P.set(ProcessorStatusBits::ZERO, new_z);
        self.registers.P.set(ProcessorStatusBits::CARRY, new_c);
        Ok(())
    }

    /// The machine as first assembled, before the reset entry point runs:
    /// registers and cycle counter cleared (the unused status bit at 1), the
    /// internal memory zeroed, and the components as handed in.
    pub open spec fn spec_initial_view(mmu: MMU, cartridge: Cartridge, ppu: PPU, apu: APU)
        -> MachineView {
        MachineView {
            a: 0,
            x: 0,
            y: 0,
            s: 0,
            p: 0x20,
            pc: 0,
            cycles: 0,
            mem: crate::cpu::model::MemView {
                zp: Seq::new(0x100, |i: int| 0u8),
                stack: Seq::new(0x100, |i: int| 0u8),
                ram: Seq::new(0x600, |i: int| 0u8),
                ppu: ppu.registers@,
                prg: cartridge.prg(),
                lo: mmu.active_prgbank_number_lower as int,
                hi: mmu.active_prgbank_number_upper as int,
            },
            apu: apu.registers@,
            chr: ppu.chr_rom@,
        }
    }

    /// Builds the CPU around its components and takes the reset entry point.
    pub fn new(mmu: MMU, cartridge: Cartridge, ppu: PPU, apu: APU) -> (r: CPU)
        requires
            cartridge.wf(),
            ppu.wf(),
            apu.wf(),
            mmu.wf(&cartridge),
        ensures
            r.wf(),
            r@ == spec_res_interrupt(Self::spec_initial_view(mmu, cartridge, ppu, apu)),
    {
        let registers = Registers::new();
        let lower_memory = LowerMemory::new();
        let mut cpu = CPU { registers, cycles: 0, mmu, cartridge, ppu, lower_memory, apu };
        proof {
            assert(cpu@ =~= Self::spec_initial_view(mmu, cartridge, ppu, apu));
        }
        cpu.res_interrupt();
        cpu
    }

    /// One whole instruction: fetch the opcode at PC, decode it, execute it,
    /// advance PC by the instruction length unless the instruction assigned
    /// PC itself, and add the base cycles.  The "oops"-cycle classes are
    /// accounted as zero extra cycles.
    #[verifier::rlimit(100)]
    pub fn clock_tick(&mut self) -> (r: Result<(), CoreError>)
        requires
            old(self).wf(),
        ensures
            final(self).wf(),
            ({
                let (res, v2) = spec_tick(old(self)@);
                r == res && final(self)@ == v2
            }),
            r is Ok <==> crate::cpu::decoder::spec_decode(
                old(self)@.read_val(old(self)@.pc),
            ) is Some,
    {
        proof {
            crate::cpu::model::lemma_tick_fails_only_on_unknown_opcode(old(self)@);
        }
        let pc = self.registers.PC;
        let opcode = self.read_memory(pc);
        match decode_opcode(opcode) {
            Err(e) => Err(e),
            Ok(instruction) => {
                let instr = instruction.0;
                let addrmode = instruction.1;
                let bytes = instruction.2;
                let cycles = instruction.3;
                match self.execute_instruction(instr, addrmode) {
                    Err(e) => Err(e),
                    Ok(()) => {
                        let ghost v1 = self@;
                        match instr {
                            Instructions::JMP | Instructions::JSR | Instructions::RTS
                                | Instructions::RTI | Instructions::BRK => {},
                            _ => {
                                self.registers.PC = self.registers.PC.wrapping_add(bytes as u16);
                            },
                        }
                        proof {
                            if crate::cpu::model::spec_reassigns_pc(instr) {
                                assert(self@ =~= v1);
                            } else {
                                assert(self@ =~= (MachineView {
                                    pc: w_add16(v1.pc, bytes as u16),
                                    ..v1
                                }));
                            }
                        }
                        let ghost v2 = self@;
                        self.cycles = self.cycles.wrapping_add(cycles as u64);
                        proof {
                            assert(self@ =~= (MachineView {
                                cycles: crate::cpu::model::w_add64(v2.cycles, cycles as u64),
                                ..v2
                            }));
                            assert(self@ =~= spec_tick(old(self)@).1);
                        }
                        Ok(())
                    },
                }
            },
        }
    }

    /// The reset entry point, through the vector at 0xFFFC.
    pub fn res_interrupt(&mut self)
        requires
            old(self).wf(),
        ensures
            final(self).wf(),
            final(self)@ == spec_res_interrupt(old(self)@),
    {
        self.registers.A = 0;
        self.registers.X = 0;
        self.registers.Y = 0;
        self.registers.S = 0xFF;
        self.registers.P.flags = 0x20;
        let new_addr = self.read_address_from_memory(0xFFFC);
        self.registers.PC = new_addr;
        self.cycles = self.cycles.wrapping_add(8);
    }

    /// The non-maskable interrupt, through the vector at 0xFFFA.
    pub fn nmi_interrupt(&mut self)
        requires
            old(self).wf(),
        ensures
            final(self).wf(),
            final(self)@ == spec_nmi_interrupt(old(self)@),
    {
        self.push_pc(0);
        self.registers.P.set(ProcessorStatusBits::BREAK, false);
        self.registers.P.set(ProcessorStatusBits::InterruptDisable, true);
        self.push_p();
        let new_addr = self.read_address_from_memory(0xFFFA);
        self.registers.PC = new_addr;
        self.cycles = self.cycles.wrapping_add(8);
    }

    /// The maskable interrupt, through the vector at 0xFFFE; ignored while
    /// the interrupt-disable flag is set.
    pub fn irq_interrupt(&mut self)
        requires
            old(self).wf(),
        ensures
            final(self).wf(),
            final(self)@ == spec_irq_interrupt(old(self)@),
    {
        if !self.registers.P.get(ProcessorStatusBits::InterruptDisable) {
            self.push_pc(0);
            self.registers.P.set(ProcessorStatusBits::BREAK, false);
            self.registers.P.set(ProcessorStatusBits::InterruptDisable, true);
            self.push_p();
            let new_addr = self.read_address_from_memory(0xFFFE);
            self.registers.PC = new_addr;
            self.cycles = self.cycles.wrapping_add(7);
        }
    }

    /// Executes one decoded instruction against the machine, leaving the
    /// program-counter advance and the cycle accounting to `clock_tick`.
    fn execute_instruction(&mut self, instr: Instructions, addrmode: AddressingMode) -> (r: Result<
        (),
        CoreError,
    >)
        requires
            old(self).wf(),
        ensures
            final(self).wf(),
            ({
                let (res, v2) = crate::cpu::model::spec_execute(old(self)@, instr, addrmode);
                r == res && final(self)@ == v2
            }),
    {
        proof {
            reveal(crate::cpu::model::spec_execute);
        }
        match instr {
            Instructions::LDA | Instructions::LDX | Instructions::LDY => self.exec_load(
                instr,
                addrmode,
            ),
            Instructions::STA | Instructions::STX | Instructions::STY => self.exec_store(
                instr,
                addrmode,
            ),
            Instructions::INC | Instructions::DEC => self.exec_incdec_memory(instr, addrmode),
            Instructions::ASL | Instructions::LSR | Instructions::ROL | Instructions::ROR => self
                .exec_shift(instr, addrmode),
            Instructions::AND | Instructions::ORA | Instructions::EOR => self.exec_logic(
                instr,
                addrmode,
            ),
            Instructions::ADC | Instructions::SBC => self.exec_arith(instr, addrmode),
            Instructions::CMP | Instructions::CPX | Instructions::CPY => self.exec_compare(
                instr,
                addrmode,
            ),
            Instructions::BIT => self.exec_bit_test(instr, addrmode),
            Instructions::BMI | Instructions::BPL | Instructions::BNE | Instructions::BVC
                | Instructions::BVS | Instructions::BEQ | Instructions::BCS
                | Instructions::BCC => self.exec_branch(instr, addrmode),
            Instructions::JMP | Instructions::JSR => self.exec_jump(instr, addrmode),
            Instructions::RTS | Instructions::RTI => self.exec_return(instr, addrmode),
            Instructions::BRK => self.exec_break(instr, addrmode),
            Instructions::TAX | Instructions::TAY | Instructions::TSX | Instructions::TXA
                | Instructions::TYA | Instructions::TXS => self.exec_transfer(instr, addrmode),
            Instructions::INX | Instructions::INY | Instructions::DEX | Instructions::DEY => self
                .exec_index_step(instr, addrmode),
            Instructions::PHA | Instructions::PHP | Instructions::PLA | Instructions::PLP => self
                .exec_stack_op(instr, addrmode),
            _ => self.exec_flag_op(instr, addrmode),
        }
    }


    /// Executes the three register loads.
    #[verifier::rlimit(100)]
    fn exec_load(&mut self, instr: Instructions, addrmode: AddressingMode) -> (r: Result<
        (),
        CoreError,
    >)
        requires
            old(self).wf(),
            instr == Instructions::LDA || instr == Instructions::LDX || instr == Instructions::LDY,
        ensures
            final(self).wf(),
            ({
                let (res, v2) = crate::cpu::model::spec_exec_load(old(self)@, instr, addrmode);
                r == res && final(self)@ == v2
            }),
    {
        match instr {
            Instructions::LDA | Instructions::LDX | Instructions::LDY => {
                let fetched_memory = match self.fetch_memory(addrmode) {
                    Ok(m) => m,
                    Err(e) => {
                        return Err(e);
                    },
                };
                if instr == Instructions::LDX {
                    self.registers.X = fetched_memory;
                } else if instr == Instructions::LDY {
                    self.registers.Y = fetched_memory;
                } else {
                    self.registers.A = fetched_memory;
                }
                self.registers.P.modify_n(fetched_memory);
                self.registers.P.modify_z(fetched_memory);
                Ok(())
            },
            _ => {
                proof {
                    assert(false);
                }
                Err(CoreError::IllegalAddressingModeForInstruction)
            },
        }
    }

    /// Executes the three register stores.
    #[verifier::rlimit(100)]
    fn exec_store(&mut self, instr: Instructions, addrmode: AddressingMode) -> (r: Result<
        (),
        CoreError,
    >)
        requires
            old(self).wf(),
            instr == Instructions::STA || instr == Instructions::STX || instr == Instructions::STY,
        ensures
            final(self).wf(),
            ({
                let (res, v2) = crate::cpu::model::spec_exec_store(old(self)@, instr, addrmode);
                r == res && final(self)@ == v2
            }),
    {
        match instr {
            Instructions::STA | Instructions::STX | Instructions::STY => {
                let data = if instr == Instructions::STX {
                    self.registers.X
                } else if instr == Instructions::STY {
                    self.registers.Y
                } else {
                    self.registers.A
                };
                let addr = match self.fetch_instruction_address(addrmode) {
                    Ok(a) => a,
                    Err(e) => {
                        return Err(e);
                    },
                };
                self.write_memory(addr, data);
                Ok(())
            },
            _ => {
                proof {
                    assert(false);
                }
                Err(CoreError::IllegalAddressingModeForInstruction)
            },
        }
    }

    /// Executes the memory increment and decrement.
    #[verifier::rlimit(100)]
    #[verifier::spinoff_prover]
    fn exec_incdec_memory(&mut self, instr: Instructions, addrmode: AddressingMode) -> (r: Result<
        (),
        CoreError,
    >)
        requires
            old(self).wf(),
            instr == Instructions::INC || instr == Instructions::DEC,
        ensures
            final(self).wf(),
            ({
                let (res, v2) = crate::cpu::model::spec_exec_incdec(old(self)@, instr, addrmode);
                r == res && final(self)@ == v2
            }),
    {
        match instr {
            Instructions::INC | Instructions::DEC => {
                let addr = match self.fetch_instruction_address(addrmode) {
                    Ok(a) => a,
                    Err(e) => {
                        return Err(e);
                    },
                };
                let ghost v1 = self@;
                let fetched_memory = self.read_memory(addr);
                let ghost v2 = self@;
                let new_memory = if instr == Instructions::INC {
                    fetched_memory.wrapping_add(1)
                } else {
                    fetched_memory.wrapping_sub(1)
                };
                self.write_memory(addr, new_memory);
                let ghost v3 = self@;
                self.registers.P.modify_n(new_memory);
                self.registers.P.modify_z(new_memory);
                proof {
                    assert(v2 == v1.after_read(addr));
                    assert(v3 == v2.write(addr, new_memory));
                    assert(self@ =~= (MachineView {
                        p: crate::cpu::model::spec_nz(v3.p, new_memory),
                        ..v3
                    }));
                    let (res, vs) = crate::cpu::model::spec_exec_incdec(
                        old(self)@,
                        instr,
                        addrmode,
                    );
                    assert(self@ =~= vs);
                }
                Ok(())
            },
            _ => {
                proof {
                    assert(false);
                }
                Err(CoreError::IllegalAddressingModeForInstruction)
            },
        }
    }

    /// Executes the shifts and rotates, on the accumulator or on memory.
    #[verifier::rlimit(100)]
    fn exec_shift(&mut self, instr: Instructions, addrmode: AddressingMode) -> (r: Result<
        (),
        CoreError,
    >)
        requires
            old(self).wf(),
            instr == Instructions::ASL || instr == Instructions::LSR || instr == Instructions::ROL || instr == Instructions::ROR,
        ensures
            final(self).wf(),
            ({
                let (res, v2) = crate::cpu::model::spec_exec_shift_op(old(self)@, instr, addrmode);
                r == res && final(self)@ == v2
            }),
    {
        match instr {
            Instructions::ASL | Instructions::LSR | Instructions::ROL | Instructions::ROR => {
                let c_in: u8 = if self.registers.P.get(ProcessorStatusBits::CARRY) {
                    1
                } else {
                    0
                };
                if addrmode == AddressingMode::ACCUMULATOR {
                    let m = self.registers.A;
                    let (result, carry_out) = self.shift_value(instr, m, c_in);
                    self.registers.A = result;
                    self.registers.P.modify_n(result);
                    self.registers.P.modify_z(result);
                    self.registers.P.set(ProcessorStatusBits::CARRY, carry_out);
                    Ok(())
                } else {
                    let addr = match self.fetch_instruction_address(addrmode) {
                        Ok(a) => a,
                        Err(e) => {
                            return Err(e);
                        },
                    };
                    let m = self.read_memory(addr);
                    let (result, carry_out) = self.shift_value(instr, m, c_in);
                    self.write_memory(addr, result);
                    self.registers.P.modify_n(result);
                    self.registers.P.modify_z(result);
                    self.registers.P.set(ProcessorStatusBits::CARRY, carry_out);
                    Ok(())
                }
            },
            _ => {
                proof {
                    assert(false);
                }
                Err(CoreError::IllegalAddressingModeForInstruction)
            },
        }
    }

    /// Executes the accumulator logic instructions.
    #[verifier::rlimit(100)]
    fn exec_logic(&mut self, instr: Instructions, addrmode: AddressingMode) -> (r: Result<
        (),
        CoreError,
    >)
        requires
            old(self).wf(),
            instr == Instructions::AND || instr == Instructions::ORA || instr == Instructions::EOR,
        ensures
            final(self).wf(),
            ({
                let (res, v2) = crate::cpu::model::spec_exec_logic(old(self)@, instr, addrmode);
                r == res && final(self)@ == v2
            }),
    {
        match instr {
            Instructions::AND | Instructions::ORA | Instructions::EOR => {
                let fetched_memory = match self.fetch_memory(addrmode) {
                    Ok(m) => m,
                    Err(e) => {
                        return Err(e);
                    },
                };
                let new_a = if instr == Instructions::AND {
                    self.registers.A & fetched_memory
                } else if instr == Instructions::ORA {
                    self.registers.A | fetched_memory
                } else {
                    self.registers.A ^ fetched_memory
                };
                self.registers.A = new_a;
                self.registers.P.modify_n(new_a);
                self.registers.P.modify_z(new_a);
                Ok(())
            },
            _ => {
                proof {
                    assert(false);
                }
                Err(CoreError::IllegalAddressingModeForInstruction)
            },
        }
    }

    /// Executes add-with-carry and subtract-with-carry.
    #[verifier::rlimit(100)]
    fn exec_arith(&mut self, instr: Instructions, addrmode: AddressingMode) -> (r: Result<
        (),
        CoreError,
    >)
        requires
            old(self).wf(),
            instr == Instructions::ADC || instr == Instructions::SBC,
        ensures
            final(self).wf(),
            ({
                let (res, v2) = crate::cpu::model::spec_exec_arith(old(self)@, instr, addrmode);
                r == res && final(self)@ == v2
            }),
    {
        match instr {
            Instructions::ADC => {
                let fetched_memory = match self.fetch_memory(addrmode) {
                    Ok(m) => m,
                    Err(e) => {
                        return Err(e);
                    },
                };
                self.add_with_carry(fetched_memory, true);
                Ok(())
            },
            Instructions::SBC => {
                let fetched_memory = match self.fetch_memory(addrmode) {
                    Ok(m) => m,
                    Err(e) => {
                        return Err(e);
                    },
                };
                self.add_with_carry(!fetched_memory, false);
                Ok(())
            },
            _ => {
                proof {
                    assert(false);
                }
                Err(CoreError::IllegalAddressingModeForInstruction)
            },
        }
    }

    /// Executes the three compares.
    #[verifier::rlimit(100)]
    fn exec_compare(&mut self, instr: Instructions, addrmode: AddressingMode) -> (r: Result<
        (),
        CoreError,
    >)
        requires
            old(self).wf(),
            instr == Instructions::CMP || instr == Instructions::CPX || instr == Instructions::CPY,
        ensures
            final(self).wf(),
            ({
                let (res, v2) = crate::cpu::model::spec_exec_compare(old(self)@, instr, addrmode);
                r == res && final(self)@ == v2
            }),
    {
        let register = if instr == Instructions::CPX {
            self.registers.X
        } else if instr == Instructions::CPY {
            self.registers.Y
        } else {
            self.registers.A
        };
        let r = self.exec_cmp(addrmode, register);
        match r {
            Ok(()) => Ok(()),
            Err(e) => Err(e),
        }
    }

    /// Executes the bit test.
    #[verifier::rlimit(100)]
    fn exec_bit_test(&mut self, instr: Instructions, addrmode: AddressingMode) -> (r: Result<
        (),
        CoreError,
    >)
        requires
            old(self).wf(),
            instr == Instructions::BIT,
        ensures
            final(self).wf(),
            ({
                let (res, v2) = crate::cpu::model::spec_exec_bit_test(old(self)@, instr, addrmode);
                r == res && final(self)@ == v2
            }),
    {
        match instr {
            Instructions::BIT => {
                let fetched_memory = match self.fetch_memory(addrmode) {
                    Ok(m) => m,
                    Err(e) => {
                        return Err(e);
                    },
                };
                let result = self.registers.A & fetched_memory;
                let bit7 = (fetched_memory >> 7u8) == 1;
                let bit6 = ((fetched_memory >> 6u8) & 1) == 1;
                self.registers.P.set(ProcessorStatusBits::NEGATIVE, bit7);
                self.registers.P.set(ProcessorStatusBits::OVERFLOW, bit6);
                self.registers.P.modify_z(result);
                Ok(())
            },
            _ => {
                proof {
                    assert(false);
                }
                Err(CoreError::IllegalAddressingModeForInstruction)
            },
        }
    }

    /// Executes the eight conditional branches.
    #[verifier::rlimit(100)]
    fn exec_branch(&mut self, instr: Instructions, addrmode: AddressingMode) -> (r: Result<
        (),
        CoreError,
    >)
        requires
            old(self).wf(),
            instr == Instructions::BMI || instr == Instructions::BPL || instr == Instructions::BNE || instr == Instructions::BVC || instr == Instructions::BVS || instr == Instructions::BEQ || instr == Instructions::BCS || instr == Instructions::BCC,
        ensures
            final(self).wf(),
            ({
                let (res, v2) = crate::cpu::model::spec_exec_branch(old(self)@, instr, addrmode);
                r == res && final(self)@ == v2
            }),
    {
        match instr {
            Instructions::BMI | Instructions::BPL | Instructions::BNE | Instructions::BVC
                | Instructions::BVS | Instructions::BEQ | Instructions::BCS
                | Instructions::BCC => {
                let taken = if instr == Instructions::BMI {
                    self.registers.P.get(ProcessorStatusBits::NEGATIVE)
                } else if instr == Instructions::BPL {
                    !self.registers.P.get(ProcessorStatusBits::NEGATIVE)
                } else if instr == Instructions::BNE {
                    !self.registers.P.get(ProcessorStatusBits::ZERO)
                } else if instr == Instructions::BVC {
                    !self.registers.P.get(ProcessorStatusBits::OVERFLOW)
                } else if instr == Instructions::BVS {
                    self.registers.P.get(ProcessorStatusBits::OVERFLOW)
                } else if instr == Instructions::BEQ {
                    self.registers.P.get(ProcessorStatusBits::ZERO)
                } else if instr == Instructions::BCS {
                    self.registers.P.get(ProcessorStatusBits::CARRY)
                } else {
                    !self.registers.P.get(ProcessorStatusBits::CARRY)
                };
                if taken {
                    let new_pc = self.read_instruction_relative_address();
                    self.registers.PC = new_pc;
                }
                Ok(())
            },
            _ => {
                proof {
                    assert(false);
                }
                Err(CoreError::IllegalAddressingModeForInstruction)
            },
        }
    }

    /// Executes the jumps, plain and to subroutine.
    #[verifier::rlimit(100)]
    fn exec_jump(&mut self, instr: Instructions, addrmode: AddressingMode) -> (r: Result<
        (),
        CoreError,
    >)
        requires
            old(self).wf(),
            instr == Instructions::JMP || instr == Instructions::JSR,
        ensures
            final(self).wf(),
            ({
                let (res, v2) = crate::cpu::model::spec_exec_jump(old(self)@, instr, addrmode);
                r == res && final(self)@ == v2
            }),
    {
        match instr {
            Instructions::JMP => {
                let addr = match self.fetch_instruction_address(addrmode) {
                    Ok(a) => a,
                    Err(e) => {
                        return Err(e);
                    },
                };
                self.registers.PC = addr;
                Ok(())
            },
            Instructions::JSR => {
                let addr = match self.fetch_instruction_address(addrmode) {
                    Ok(a) => a,
                    Err(e) => {
                        return Err(e);
                    },
                };
                self.push_pc(2);
                self.registers.PC = addr;
                Ok(())
            },
            _ => {
                proof {
                    assert(false);
                }
                Err(CoreError::IllegalAddressingModeForInstruction)
            },
        }
    }

    /// Executes the returns from subroutine and from interrupt.
    #[verifier::rlimit(100)]
    fn exec_return(&mut self, instr: Instructions, addrmode: AddressingMode) -> (r: Result<
        (),
        CoreError,
    >)
        requires
            old(self).wf(),
            instr == Instructions::RTS || instr == Instructions::RTI,
        ensures
            final(self).wf(),
            ({
                let (res, v2) = crate::cpu::model::spec_exec_return(old(self)@, instr, addrmode);
                r == res && final(self)@ == v2
            }),
    {
        match instr {
            Instructions::RTS => {
                let addr = self.pop_pc();
                self.registers.PC = addr.wrapping_add(1);
                Ok(())
            },
            Instructions::RTI => {
                let p_flags = self.pop_stack();
                self.registers.P.flags = p_flags;
                let b = self.registers.P.get(ProcessorStatusBits::BREAK);
                self.registers.P.set(ProcessorStatusBits::BREAK, !b);
                let addr = self.pop_pc();
                self.registers.PC = addr;
                Ok(())
            },
            _ => {
                proof {
                    assert(false);
                }
                Err(CoreError::IllegalAddressingModeForInstruction)
            },
        }
    }

    /// Executes the software interrupt.
    #[verifier::rlimit(100)]
    fn exec_break(&mut self, instr: Instructions, addrmode: AddressingMode) -> (r: Result<
        (),
        CoreError,
    >)
        requires
            old(self).wf(),
            instr == Instructions::BRK,
        ensures
            final(self).wf(),
            ({
                let (res, v2) = crate::cpu::model::spec_exec_break(old(self)@, instr, addrmode);
                r == res && final(self)@ == v2
            }),
    {
        match instr {
            Instructions::BRK => {
                self.push_pc(2);
                let mut pushed = self.registers.P.flags;
                crate::common::set(&mut pushed, 4, true);
                self.push_stack(pushed);
                self.registers.P.set(ProcessorStatusBits::InterruptDisable, true);
                let vector = self.read_address_from_memory(0xFFFE);
                self.registers.PC = vector;
                Ok(())
            },
            _ => {
                proof {
                    assert(false);
                }
                Err(CoreError::IllegalAddressingModeForInstruction)
            },
        }
    }

    /// Executes the register transfers.
    #[verifier::rlimit(100)]
    fn exec_transfer(&mut self, instr: Instructions, addrmode: AddressingMode) -> (r: Result<
        (),
        CoreError,
    >)
        requires
            old(self).wf(),
            instr == Instructions::TAX || instr == Instructions::TAY || instr == Instructions::TSX || instr == Instructions::TXA || instr == Instructions::TYA || instr == Instructions::TXS,
        ensures
            final(self).wf(),
            ({
                let (res, v2) = crate::cpu::model::spec_exec_transfer(old(self)@, instr, addrmode);
                r == res && final(self)@ == v2
            }),
    {
        match instr {
            Instructions::TAX => {
                self.registers.X = self.registers.A;
                let v = self.registers.X;
                self.registers.P.modify_n(v);
                self.registers.P.modify_z(v);
                Ok(())
            },
            Instructions::TAY => {
                self.registers.Y = self.registers.A;
                let v = self.registers.Y;
                self.registers.P.modify_n(v);
                self.registers.P.modify_z(v);
                Ok(())
            },
            Instructions::TSX => {
                self.registers.X = self.registers.S;
                let v = self.registers.X;
                self.registers.P.modify_n(v);
                self.registers.P.modify_z(v);
                Ok(())
            },
            Instructions::TXA => {
                self.registers.A = self.registers.X;
                let v = self.registers.A;
                self.registers.P.modify_n(v);
                self.registers.P.modify_z(v);
                Ok(())
            },
            Instructions::TYA => {
                self.registers.A = self.registers.Y;
                let v = self.registers.A;
                self.registers.P.modify_n(v);
                self.registers.P.modify_z(v);
                Ok(())
            },
            Instructions::TXS => {
                self.registers.S = self.registers.X;
                Ok(())
            },
            _ => {
                proof {
                    assert(false);
                }
                Err(CoreError::IllegalAddressingModeForInstruction)
            },
        }
    }

    /// Executes the index register increments and decrements.
    #[verifier::rlimit(100)]
    fn exec_index_step(&mut self, instr: Instructions, addrmode: AddressingMode) -> (r: Result<
        (),
        CoreError,
    >)
        requires
            old(self).wf(),
            instr == Instructions::INX || instr == Instructions::INY || instr == Instructions::DEX || instr == Instructions::DEY,
        ensures
            final(self).wf(),
            ({
                let (res, v2) = crate::cpu::model::spec_exec_index_step(old(self)@, instr, addrmode);
                r == res && final(self)@ == v2
            }),
    {
        match instr {
            Instructions::INX => {
                self.registers.X = self.registers.X.wrapping_add(1);
                let v = self.registers.X;
                self.registers.P.modify_n(v);
                self.registers.P.modify_z(v);
                Ok(())
            },
            Instructions::INY => {
                self.registers.Y = self.registers.Y.wrapping_add(1);
                let v = self.registers.Y;
                self.registers.P.modify_n(v);
                self.registers.P.modify_z(v);
                Ok(())
            },
            Instructions::DEX => {
                self.registers.X = self.registers.X.wrapping_sub(1);
                let v = self.registers.X;
                self.registers.P.modify_n(v);
                self.registers.P.modify_z(v);
                Ok(())
            },
            Instructions::DEY => {
                self.registers.Y = self.registers.Y.wrapping_sub(1);
                let v = self.registers.Y;
                self.registers.P.modify_n(v);
                self.registers.P.modify_z(v);
                Ok(())
            },
            _ => {
                proof {
                    assert(false);
                }
                Err(CoreError::IllegalAddressingModeForInstruction)
            },
        }
    }

    /// Executes the stack pushes and pulls.
    #[verifier::rlimit(100)]
    fn exec_stack_op(&mut self, instr: Instructions, addrmode: AddressingMode) -> (r: Result<
        (),
        CoreError,
    >)
        requires
            old(self).wf(),
            instr == Instructions::PHA || instr == Instructions::PHP || instr == Instructions::PLA || instr == Instructions::PLP,
        ensures
            final(self).wf(),
            ({
                let (res, v2) = crate::cpu::model::spec_exec_stack_op(old(self)@, instr, addrmode);
                r == res && final(self)@ == v2
            }),
    {
        match instr {
            Instructions::PHA => {
                let a = self.registers.A;
                self.push_stack(a);
                Ok(())
            },
            Instructions::PHP => {
                self.push_p();
                Ok(())
            },
            Instructions::PLA => {
                let fetched_memory = self.pop_stack();
                self.registers.A = fetched_memory;
                self.registers.P.modify_n(fetched_memory);
                self.registers.P.modify_z(fetched_memory);
                Ok(())
            },
            Instructions::PLP => {
                let p_flags = self.pop_stack();
                self.registers.P.flags = p_flags;
                let b = self.registers.P.get(ProcessorStatusBits::BREAK);
                self.registers.P.set(ProcessorStatusBits::BREAK, !b);
                Ok(())
            },
            _ => {
                proof {
                    assert(false);
                }
                Err(CoreError::IllegalAddressingModeForInstruction)
            },
        }
    }

    /// Executes the flag writes and no-operation.
    #[verifier::rlimit(100)]
    fn exec_flag_op(&mut self, instr: Instructions, addrmode: AddressingMode) -> (r: Result<
        (),
        CoreError,
    >)
        requires
            old(self).wf(),
            instr == Instructions::SEC || instr == Instructions::CLC || instr == Instructions::SED || instr == Instructions::CLD || instr == Instructions::SEI || instr == Instructions::CLI || instr == Instructions::CLV || instr == Instructions::NOP,
        ensures
            final(self).wf(),
            ({
                let (res, v2) = crate::cpu::model::spec_exec_flag_op(old(self)@, instr, addrmode);
                r == res && final(self)@ == v2
            }),
    {
        match instr {
            Instructions::SEC => {
                self.registers.P.set(ProcessorStatusBits::CARRY, true);
                Ok(())
            },
            Instructions::CLC => {
                self.registers.P.set(ProcessorStatusBits::CARRY, false);
                Ok(())
            },
            Instructions::SED => {
                self.registers.P.set(ProcessorStatusBits::DECIMAL, true);
                Ok(())
            },
            Instructions::CLD => {
                self.registers.P.set(ProcessorStatusBits::DECIMAL, false);
                Ok(())
            },
            Instructions::SEI => {
                self.registers.P.set(ProcessorStatusBits::InterruptDisable, true);
                Ok(())
            },
            Instructions::CLI => {
                self.registers.P.set(ProcessorStatusBits::InterruptDisable, false);
                Ok(())
            },
            Instructions::CLV => {
                self.registers.P.set(ProcessorStatusBits::OVERFLOW, false);
                Ok(())
            },
            Instructions::NOP => Ok(()),
            _ => {
                proof {
                    assert(false);
                }
                Err(CoreError::IllegalAddressingModeForInstruction)
            },
        }
    }
}

} // verus!
