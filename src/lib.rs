//! Core of a cycle-accurate Ricoh 2A03 / NES emulator: CPU, PPU, APU pieces,
//! buses, cartridge mapping and the master-clock scheduler.

pub mod clock_divider;
pub mod shreg;
pub mod length_counter;
pub mod envelope_generator;
pub mod rp2a03;
pub mod opcodes;
pub mod memory;
pub mod alu;
pub mod cpu;
pub mod frame_sequencer;
pub mod ch_pulse;
pub mod apu;
pub mod mappers;
pub mod rom;
pub mod ppu_bus;
pub mod ppu;
pub mod mmap;
pub mod nes;
pub mod palette;
