//! A cycle-counting interpreter for the MOS 6502 processor as found in the
//! Nintendo Entertainment System, together with the flat memory bus it
//! mutates and a parser for the iNES cartridge container.

pub mod cpu;
pub mod memory;
pub mod nes;
pub mod rom;
