//! The core of a Nintendo Entertainment System emulator: a model of the MOS
//! 6502 CPU, the iNES cartridge loader, and the memory-mapping logic that
//! glues the CPU to cartridge PRG-ROM, the PPU register window, the APU
//! register window and internal CPU RAM.
//!
//! The machine is specified against `cpu::model::MachineView`, a mathematical
//! view of registers and memory; `cpu::cpu::CPU::clock_tick` implements
//! `cpu::model::spec_tick` exactly.  Picture output and event handling are
//! out of scope: the PPU here is the eight-register collaborator the CPU
//! talks to.
pub mod apu;
pub mod cartridge;
pub mod common;
pub mod cpu;
pub mod mmu;
pub mod nes;
pub mod ppu;
pub mod program_loader;
pub mod ram;
pub mod rom_parser;
