//! Cycle-accurate instruction engine for an 8-bit 6502-family processor,
//! together with the byte-addressable bus layers it reads and writes and a
//! reader for the cartridge container format that supplies the initial
//! memory image.

pub mod bus;
pub mod cpu;
pub mod memory;
pub mod rom;
