//! The 6502 processor: register file, status flags, opcode decoding, and
//! instruction semantics.

pub mod cpu;
pub mod opinfo;
pub mod semantics;
pub mod status_register;
pub mod utils;
