//! The opcode decode table: a total map from opcode byte to mnemonic,
//! addressing mode, instruction length and base cycle cost.

use vstd::prelude::*;

use crate::cpu::cpu::AddressingMode;

verus! {

/// Information required to execute an instruction. `cycles` is the base
/// cost, without conditional cycles such as page-crossing or branch
/// penalties; `bytes` is the instruction length including the opcode.
#[derive(Debug, Clone, Copy, PartialEq, Eq, Structural)]
pub struct OpInfo {
    pub mode: AddressingMode,
    pub cycles: usize,
    pub bytes: usize,
}

/// The 56 documented instruction mnemonics of the 6502.
#[derive(Debug, Clone, Copy, PartialEq, Eq, Structural)]
pub enum Mnemonic {
    Adc,
    And,
    Asl,
    Bcc,
    Bcs,
    Beq,
    Bit,
    Bmi,
    Bne,
    Bpl,
    Brk,
    Bvc,
    Bvs,
    Clc,
    Cld,
    Cli,
    Clv,
    Cmp,
    Cpx,
    Cpy,
    Dec,
    Dex,
    Dey,
    Eor,
    Inc,
    Inx,
    Iny,
    Jmp,
    Jsr,
    Lda,
    Ldx,
    Ldy,
    Lsr,
    Nop,
    Ora,
    Pha,
    Php,
    Pla,
    Plp,
    Rol,
    Ror,
    Rti,
    Rts,
    Sbc,
    Sec,
    Sed,
    Sei,
    Sta,
    Stx,
    Sty,
    Tax,
    Tay,
    Tsx,
    Txa,
    Txs,
    Tya,
}

/// Whether a mode names a memory operand: every mode but the two that
/// operate on a register alone.
pub open spec fn mode_has_operand(mode: AddressingMode) -> bool {
    !(mode is Implicit) && !(mode is Accumulator)
}

/// The mnemonics whose semantics read or write a memory operand through the
/// addressing mode.
pub open spec fn needs_memory_operand(m: Mnemonic) -> bool {
    match m {
        Mnemonic::Adc | Mnemonic::And | Mnemonic::Bit | Mnemonic::Cmp | Mnemonic::Cpx
            | Mnemonic::Cpy | Mnemonic::Dec | Mnemonic::Eor | Mnemonic::Inc | Mnemonic::Jmp
            | Mnemonic::Jsr | Mnemonic::Lda | Mnemonic::Ldx | Mnemonic::Ldy | Mnemonic::Ora
            | Mnemonic::Sbc | Mnemonic::Sta | Mnemonic::Stx | Mnemonic::Sty => true,
        _ => false,
    }
}

/// The shift and rotate mnemonics, which operate either on the accumulator
/// or on a memory operand.
pub open spec fn is_shift(m: Mnemonic) -> bool {
    match m {
        Mnemonic::Asl | Mnemonic::Lsr | Mnemonic::Rol | Mnemonic::Ror => true,
        _ => false,
    }
}

/// The mnemonics that write the program counter themselves; every other
/// instruction advances it by its byte length.
pub open spec fn spec_writes_pc(m: Mnemonic) -> bool {
    match m {
        Mnemonic::Bcc | Mnemonic::Bcs | Mnemonic::Beq | Mnemonic::Bmi | Mnemonic::Bne
            | Mnemonic::Bpl | Mnemonic::Bvc | Mnemonic::Bvs | Mnemonic::Brk | Mnemonic::Jmp
            | Mnemonic::Jsr | Mnemonic::Rts | Mnemonic::Rti => true,
        _ => false,
    }
}

/// The mnemonics that pay one extra cycle when an indexed read crosses a
/// page boundary.
pub open spec fn pays_page_penalty(m: Mnemonic) -> bool {
    match m {
        Mnemonic::Adc | Mnemonic::And | Mnemonic::Cmp | Mnemonic::Eor | Mnemonic::Lda
            | Mnemonic::Ldx | Mnemonic::Ldy | Mnemonic::Ora | Mnemonic::Sbc => true,
        _ => false,
    }
}

/// The decode table over all 256 opcode bytes: the 151 documented opcodes
/// map to their entry, every other byte to nothing.
pub open spec fn spec_decode(op: u8) -> Option<(Mnemonic, OpInfo)> {
    match op {
        0x00 => Some((Mnemonic::Brk, OpInfo { mode: AddressingMode::Implicit, cycles: 7, bytes: 1 })),
        0x01 => Some((Mnemonic::Ora, OpInfo { mode: AddressingMode::IndexedIndirect, cycles: 6, bytes: 2 })),
        0x05 => Some((Mnemonic::Ora, OpInfo { mode: AddressingMode::ZeroPage, cycles: 3, bytes: 2 })),
        0x06 => Some((Mnemonic::Asl, OpInfo { mode: AddressingMode::ZeroPage, cycles: 5, bytes: 2 })),
        0x08 => Some((Mnemonic::Php, OpInfo { mode: AddressingMode::Implicit, cycles: 3, bytes: 1 })),
        0x09 => Some((Mnemonic::Ora, OpInfo { mode: AddressingMode::Immediate, cycles: 2, bytes: 2 })),
        0x0A => Some((Mnemonic::Asl, OpInfo { mode: AddressingMode::Accumulator, cycles: 2, bytes: 1 })),
        0x0D => Some((Mnemonic::Ora, OpInfo { mode: AddressingMode::Absolute, cycles: 4, bytes: 3 })),
        0x0E => Some((Mnemonic::Asl, OpInfo { mode: AddressingMode::Absolute, cycles: 6, bytes: 3 })),
        0x10 => Some((Mnemonic::Bpl, OpInfo { mode: AddressingMode::Relative, cycles: 2, bytes: 2 })),
        0x11 => Some((Mnemonic::Ora, OpInfo { mode: AddressingMode::IndirectIndexed, cycles: 5, bytes: 2 })),
        0x15 => Some((Mnemonic::Ora, OpInfo { mode: AddressingMode::ZeroPageX, cycles: 4, bytes: 2 })),
        0x16 => Some((Mnemonic::Asl, OpInfo { mode: AddressingMode::ZeroPageX, cycles: 6, bytes: 2 })),
        0x18 => Some((Mnemonic::Clc, OpInfo { mode: AddressingMode::Implicit, cycles: 2, bytes: 1 })),
        0x19 => Some((Mnemonic::Ora, OpInfo { mode: AddressingMode::AbsoluteY, cycles: 4, bytes: 3 })),
        0x1D => Some((Mnemonic::Ora, OpInfo { mode: AddressingMode::AbsoluteX, cycles: 4, bytes: 3 })),
        0x1E => Some((Mnemonic::Asl, OpInfo { mode: AddressingMode::AbsoluteX, cycles: 7, bytes: 3 })),
        0x20 => Some((Mnemonic::Jsr, OpInfo { mode: AddressingMode::Absolute, cycles: 6, bytes: 3 })),
        0x21 => Some((Mnemonic::And, OpInfo { mode: AddressingMode::IndexedIndirect, cycles: 6, bytes: 2 })),
        0x24 => Some((Mnemonic::Bit, OpInfo { mode: AddressingMode::ZeroPage, cycles: 3, bytes: 2 })),
        0x25 => Some((Mnemonic::And, OpInfo { mode: AddressingMode::ZeroPage, cycles: 3, bytes: 2 })),
        0x26 => Some((Mnemonic::Rol, OpInfo { mode: AddressingMode::ZeroPage, cycles: 5, bytes: 2 })),
        0x28 => Some((Mnemonic::Plp, OpInfo { mode: AddressingMode::Implicit, cycles: 4, bytes: 1 })),
        0x29 => Some((Mnemonic::And, OpInfo { mode: AddressingMode::Immediate, cycles: 2, bytes: 2 })),
        0x2A => Some((Mnemonic::Rol, OpInfo { mode: AddressingMode::Accumulator, cycles: 2, bytes: 1 })),
        0x2C => Some((Mnemonic::Bit, OpInfo { mode: AddressingMode::Absolute, cycles: 4, bytes: 3 })),
        0x2D => Some((Mnemonic::And, OpInfo { mode: AddressingMode::Absolute, cycles: 4, bytes: 3 })),
        0x2E => Some((Mnemonic::Rol, OpInfo { mode: AddressingMode::Absolute, cycles: 6, bytes: 3 })),
        0x30 => Some((Mnemonic::Bmi, OpInfo { mode: AddressingMode::Relative, cycles: 2, bytes: 2 })),
        0x31 => Some((Mnemonic::And, OpInfo { mode: AddressingMode::IndirectIndexed, cycles: 5, bytes: 2 })),
        0x35 => Some((Mnemonic::And, OpInfo { mode: AddressingMode::ZeroPageX, cycles: 4, bytes: 2 })),
        0x36 => Some((Mnemonic::Rol, OpInfo { mode: AddressingMode::ZeroPageX, cycles: 6, bytes: 2 })),
        0x38 => Some((Mnemonic::Sec, OpInfo { mode: AddressingMode::Implicit, cycles: 2, bytes: 1 })),
        0x39 => Some((Mnemonic::And, OpInfo { mode: AddressingMode::AbsoluteY, cycles: 4, bytes: 3 })),
        0x3D => Some((Mnemonic::And, OpInfo { mode: AddressingMode::AbsoluteX, cycles: 4, bytes: 3 })),
        0x3E => Some((Mnemonic::Rol, OpInfo { mode: AddressingMode::AbsoluteX, cycles: 7, bytes: 3 })),
        0x40 => Some((Mnemonic::Rti, OpInfo { mode: AddressingMode::Implicit, cycles: 6, bytes: 1 })),
        0x41 => Some((Mnemonic::Eor, OpInfo { mode: AddressingMode::IndexedIndirect, cycles: 6, bytes: 2 })),
        0x45 => Some((Mnemonic::Eor, OpInfo { mode: AddressingMode::ZeroPage, cycles: 3, bytes: 2 })),
        0x46 => Some((Mnemonic::Lsr, OpInfo { mode: AddressingMode::ZeroPage, cycles: 5, bytes: 2 })),
        0x48 => Some((Mnemonic::Pha, OpInfo { mode: AddressingMode::Implicit, cycles: 3, bytes: 1 })),
        0x49 => Some((Mnemonic::Eor, OpInfo { mode: AddressingMode::Immediate, cycles: 2, bytes: 2 })),
        0x4A => Some((Mnemonic::Lsr, OpInfo { mode: AddressingMode::Accumulator, cycles: 2, bytes: 1 })),
        0x4C => Some((Mnemonic::Jmp, OpInfo { mode: AddressingMode::Absolute, cycles: 3, bytes: 3 })),
        0x4D => Some((Mnemonic::Eor, OpInfo { mode: AddressingMode::Absolute, cycles: 4, bytes: 3 })),
        0x4E => Some((Mnemonic::Lsr, OpInfo { mode: AddressingMode::Absolute, cycles: 6, bytes: 3 })),
        0x50 => Some((Mnemonic::Bvc, OpInfo { mode: AddressingMode::Relative, cycles: 2, bytes: 2 })),
        0x51 => Some((Mnemonic::Eor, OpInfo { mode: AddressingMode::IndirectIndexed, cycles: 5, bytes: 2 })),
        0x55 => Some((Mnemonic::Eor, OpInfo { mode: AddressingMode::ZeroPageX, cycles: 4, bytes: 2 })),
        0x56 => Some((Mnemonic::Lsr, OpInfo { mode: AddressingMode::ZeroPageX, cycles: 6, bytes: 2 })),
        0x58 => Some((Mnemonic::Cli, OpInfo { mode: AddressingMode::Implicit, cycles: 2, bytes: 1 })),
        0x59 => Some((Mnemonic::Eor, OpInfo { mode: AddressingMode::AbsoluteY, cycles: 4, bytes: 3 })),
        0x5D => Some((Mnemonic::Eor, OpInfo { mode: AddressingMode::AbsoluteX, cycles: 4, bytes: 3 })),
        0x5E => Some((Mnemonic::Lsr, OpInfo { mode: AddressingMode::AbsoluteX, cycles: 7, bytes: 3 })),
        0x60 => Some((Mnemonic::Rts, OpInfo { mode: AddressingMode::Implicit, cycles: 6, bytes: 1 })),
        0x61 => Some((Mnemonic::Adc, OpInfo { mode: AddressingMode::IndexedIndirect, cycles: 6, bytes: 2 })),
        0x65 => Some((Mnemonic::Adc, OpInfo { mode: AddressingMode::ZeroPage, cycles: 3, bytes: 2 })),
        0x66 => Some((Mnemonic::Ror, OpInfo { mode: AddressingMode::ZeroPage, cycles: 5, bytes: 2 })),
        0x68 => Some((Mnemonic::Pla, OpInfo { mode: AddressingMode::Implicit, cycles: 4, bytes: 1 })),
        0x69 => Some((Mnemonic::Adc, OpInfo { mode: AddressingMode::Immediate, cycles: 2, bytes: 2 })),
        0x6A => Some((Mnemonic::Ror, OpInfo { mode: AddressingMode::Accumulator, cycles: 2, bytes: 1 })),
        0x6C => Some((Mnemonic::Jmp, OpInfo { mode: AddressingMode::Indirect, cycles: 5, bytes: 3 })),
        0x6D => Some((Mnemonic::Adc, OpInfo { mode: AddressingMode::Absolute, cycles: 4, bytes: 3 })),
        0x6E => Some((Mnemonic::Ror, OpInfo { mode: AddressingMode::Absolute, cycles: 6, bytes: 3 })),
        0x70 => Some((Mnemonic::Bvs, OpInfo { mode: AddressingMode::Relative, cycles: 2, bytes: 2 })),
        0x71 => Some((Mnemonic::Adc, OpInfo { mode: AddressingMode::IndirectIndexed, cycles: 5, bytes: 2 })),
        0x75 => Some((Mnemonic::Adc, OpInfo { mode: AddressingMode::ZeroPageX, cycles: 4, bytes: 2 })),
        0x76 => Some((Mnemonic::Ror, OpInfo { mode: AddressingMode::ZeroPageX, cycles: 6, bytes: 2 })),
        0x78 => Some((Mnemonic::Sei, OpInfo { mode: AddressingMode::Implicit, cycles: 2, bytes: 1 })),
        0x79 => Some((Mnemonic::Adc, OpInfo { mode: AddressingMode::AbsoluteY, cycles: 4, bytes: 3 })),
        0x7D => Some((Mnemonic::Adc, OpInfo { mode: AddressingMode::AbsoluteX, cycles: 4, bytes: 3 })),
        0x7E => Some((Mnemonic::Ror, OpInfo { mode: AddressingMode::AbsoluteX, cycles: 7, bytes: 3 })),
        0x81 => Some((Mnemonic::Sta, OpInfo { mode: AddressingMode::IndexedIndirect, cycles: 6, bytes: 2 })),
        0x84 => Some((Mnemonic::Sty, OpInfo { mode: AddressingMode::ZeroPage, cycles: 3, bytes: 2 })),
        0x85 => Some((Mnemonic::Sta, OpInfo { mode: AddressingMode::ZeroPage, cycles: 3, bytes: 2 })),
        0x86 => Some((Mnemonic::Stx, OpInfo { mode: AddressingMode::ZeroPage, cycles: 3, bytes: 2 })),
        0x88 => Some((Mnemonic::Dey, OpInfo { mode: AddressingMode::Implicit, cycles: 2, bytes: 1 })),
        0x8A => Some((Mnemonic::Txa, OpInfo { mode: AddressingMode::Implicit, cycles: 2, bytes: 1 })),
        0x8C => Some((Mnemonic::Sty, OpInfo { mode: AddressingMode::Absolute, cycles: 4, bytes: 3 })),
        0x8D => Some((Mnemonic::Sta, OpInfo { mode: AddressingMode::Absolute, cycles: 4, bytes: 3 })),
        0x8E => Some((Mnemonic::Stx, OpInfo { mode: AddressingMode::Absolute, cycles: 4, bytes: 3 })),
        0x90 => Some((Mnemonic::Bcc, OpInfo { mode: AddressingMode::Relative, cycles: 2, bytes: 2 })),
        0x91 => Some((Mnemonic::Sta, OpInfo { mode: AddressingMode::IndirectIndexed, cycles: 6, bytes: 2 })),
        0x94 => Some((Mnemonic::Sty, OpInfo { mode: AddressingMode::ZeroPageX, cycles: 4, bytes: 2 })),
        0x95 => Some((Mnemonic::Sta, OpInfo { mode: AddressingMode::ZeroPageX, cycles: 4, bytes: 2 })),
        0x96 => Some((Mnemonic::Stx, OpInfo { mode: AddressingMode::ZeroPageY, cycles: 4, bytes: 2 })),
        0x98 => Some((Mnemonic::Tya, OpInfo { mode: AddressingMode::Implicit, cycles: 2, bytes: 1 })),
        0x99 => Some((Mnemonic::Sta, OpInfo { mode: AddressingMode::AbsoluteY, cycles: 5, bytes: 3 })),
        0x9A => Some((Mnemonic::Txs, OpInfo { mode: AddressingMode::Implicit, cycles: 2, bytes: 1 })),
        0x9D => Some((Mnemonic::Sta, OpInfo { mode: AddressingMode::AbsoluteX, cycles: 5, bytes: 3 })),
        0xA0 => Some((Mnemonic::Ldy, OpInfo { mode: AddressingMode::Immediate, cycles: 2, bytes: 2 })),
        0xA1 => Some((Mnemonic::Lda, OpInfo { mode: AddressingMode::IndexedIndirect, cycles: 6, bytes: 2 })),
        0xA2 => Some((Mnemonic::Ldx, OpInfo { mode: AddressingMode::Immediate, cycles: 2, bytes: 2 })),
        0xA4 => Some((Mnemonic::Ldy, OpInfo { mode: AddressingMode::ZeroPage, cycles: 3, bytes: 2 })),
        0xA5 => Some((Mnemonic::Lda, OpInfo { mode: AddressingMode::ZeroPage, cycles: 3, bytes: 2 })),
        0xA6 => Some((Mnemonic::Ldx, OpInfo { mode: AddressingMode::ZeroPage, cycles: 3, bytes: 2 })),
        0xA8 => Some((Mnemonic::Tay, OpInfo { mode: AddressingMode::Implicit, cycles: 2, bytes: 1 })),
        0xA9 => Some((Mnemonic::Lda, OpInfo { mode: AddressingMode::Immediate, cycles: 2, bytes: 2 })),
        0xAA => Some((Mnemonic::Tax, OpInfo { mode: AddressingMode::Implicit, cycles: 2, bytes: 1 })),
        0xAC => Some((Mnemonic::Ldy, OpInfo { mode: AddressingMode::Absolute, cycles: 4, bytes: 3 })),
        0xAD => Some((Mnemonic::Lda, OpInfo { mode: AddressingMode::Absolute, cycles: 4, bytes: 3 })),
        0xAE => Some((Mnemonic::Ldx, OpInfo { mode: AddressingMode::Absolute, cycles: 4, bytes: 3 })),
        0xB0 => Some((Mnemonic::Bcs, OpInfo { mode: AddressingMode::Relative, cycles: 2, bytes: 2 })),
        0xB1 => Some((Mnemonic::Lda, OpInfo { mode: AddressingMode::IndirectIndexed, cycles: 5, bytes: 2 })),
        0xB4 => Some((Mnemonic::Ldy, OpInfo { mode: AddressingMode::ZeroPageX, cycles: 4, bytes: 2 })),
        0xB5 => Some((Mnemonic::Lda, OpInfo { mode: AddressingMode::ZeroPageX, cycles: 4, bytes: 2 })),
        0xB6 => Some((Mnemonic::Ldx, OpInfo { mode: AddressingMode::ZeroPageY, cycles: 4, bytes: 2 })),
        0xB8 => Some((Mnemonic::Clv, OpInfo { mode: AddressingMode::Implicit, cycles: 2, bytes: 1 })),
        0xB9 => Some((Mnemonic::Lda, OpInfo { mode: AddressingMode::AbsoluteY, cycles: 4, bytes: 3 })),
        0xBA => Some((Mnemonic::Tsx, OpInfo { mode: AddressingMode::Implicit, cycles: 2, bytes: 1 })),
        0xBC => Some((Mnemonic::Ldy, OpInfo { mode: AddressingMode::AbsoluteX, cycles: 4, bytes: 3 })),
        0xBD => Some((Mnemonic::Lda, OpInfo { mode: AddressingMode::AbsoluteX, cycles: 4, bytes: 3 })),
        0xBE => Some((Mnemonic::Ldx, OpInfo { mode: AddressingMode::AbsoluteY, cycles: 4, bytes: 3 })),
        0xC0 => Some((Mnemonic::Cpy, OpInfo { mode: AddressingMode::Immediate, cycles: 2, bytes: 2 })),
        0xC1 => Some((Mnemonic::Cmp, OpInfo { mode: AddressingMode::IndexedIndirect, cycles: 6, bytes: 2 })),
        0xC4 => Some((Mnemonic::Cpy, OpInfo { mode: AddressingMode::ZeroPage, cycles: 3, bytes: 2 })),
        0xC5 => Some((Mnemonic::Cmp, OpInfo { mode: AddressingMode::ZeroPage, cycles: 3, bytes: 2 })),
        0xC6 => Some((Mnemonic::Dec, OpInfo { mode: AddressingMode::ZeroPage, cycles: 5, bytes: 2 })),
        0xC8 => Some((Mnemonic::Iny, OpInfo { mode: AddressingMode::Implicit, cycles: 2, bytes: 1 })),
        0xC9 => Some((Mnemonic::Cmp, OpInfo { mode: AddressingMode::Immediate, cycles: 2, bytes: 2 })),
        0xCA => Some((Mnemonic::Dex, OpInfo { mode: AddressingMode::Implicit, cycles: 2, bytes: 1 })),
        0xCC => Some((Mnemonic::Cpy, OpInfo { mode: AddressingMode::Absolute, cycles: 4, bytes: 3 })),
        0xCD => Some((Mnemonic::Cmp, OpInfo { mode: AddressingMode::Absolute, cycles: 4, bytes: 3 })),
        0xCE => Some((Mnemonic::Dec, OpInfo { mode: AddressingMode::Absolute, cycles: 6, bytes: 3 })),
        0xD0 => Some((Mnemonic::Bne, OpInfo { mode: AddressingMode::Relative, cycles: 2, bytes: 2 })),
        0xD1 => Some((Mnemonic::Cmp, OpInfo { mode: AddressingMode::IndirectIndexed, cycles: 5, bytes: 2 })),
        0xD5 => Some((Mnemonic::Cmp, OpInfo { mode: AddressingMode::ZeroPageX, cycles: 4, bytes: 2 })),
        0xD6 => Some((Mnemonic::Dec, OpInfo { mode: AddressingMode::ZeroPageX, cycles: 6, bytes: 2 })),
        0xD8 => Some((Mnemonic::Cld, OpInfo { mode: AddressingMode::Implicit, cycles: 2, bytes: 1 })),
        0xD9 => Some((Mnemonic::Cmp, OpInfo { mode: AddressingMode::AbsoluteY, cycles: 4, bytes: 3 })),
        0xDD => Some((Mnemonic::Cmp, OpInfo { mode: AddressingMode::AbsoluteX, cycles: 4, bytes: 3 })),
        0xDE => Some((Mnemonic::Dec, OpInfo { mode: AddressingMode::AbsoluteX, cycles: 7, bytes: 3 })),
        0xE0 => Some((Mnemonic::Cpx, OpInfo { mode: AddressingMode::Immediate, cycles: 2, bytes: 2 })),
        0xE1 => Some((Mnemonic::Sbc, OpInfo { mode: AddressingMode::IndexedIndirect, cycles: 6, bytes: 2 })),
        0xE4 => Some((Mnemonic::Cpx, OpInfo { mode: AddressingMode::ZeroPage, cycles: 3, bytes: 2 })),
        0xE5 => Some((Mnemonic::Sbc, OpInfo { mode: AddressingMode::ZeroPage, cycles: 3, bytes: 2 })),
        0xE6 => Some((Mnemonic::Inc, OpInfo { mode: AddressingMode::ZeroPage, cycles: 5, bytes: 2 })),
        0xE8 => Some((Mnemonic::Inx, OpInfo { mode: AddressingMode::Implicit, cycles: 2, bytes: 1 })),
        0xE9 => Some((Mnemonic::Sbc, OpInfo { mode: AddressingMode::Immediate, cycles: 2, bytes: 2 })),
        0xEA => Some((Mnemonic::Nop, OpInfo { mode: AddressingMode::Implicit, cycles: 2, bytes: 1 })),
        0xEC => Some((Mnemonic::Cpx, OpInfo { mode: AddressingMode::Absolute, cycles: 4, bytes: 3 })),
        0xED => Some((Mnemonic::Sbc, OpInfo { mode: AddressingMode::Absolute, cycles: 4, bytes: 3 })),
        0xEE => Some((Mnemonic::Inc, OpInfo { mode: AddressingMode::Absolute, cycles: 6, bytes: 3 })),
        0xF0 => Some((Mnemonic::Beq, OpInfo { mode: AddressingMode::Relative, cycles: 2, bytes: 2 })),
        0xF1 => Some((Mnemonic::Sbc, OpInfo { mode: AddressingMode::IndirectIndexed, cycles: 5, bytes: 2 })),
        0xF5 => Some((Mnemonic::Sbc, OpInfo { mode: AddressingMode::ZeroPageX, cycles: 4, bytes: 2 })),
        0xF6 => Some((Mnemonic::Inc, OpInfo { mode: AddressingMode::ZeroPageX, cycles: 6, bytes: 2 })),
        0xF8 => Some((Mnemonic::Sed, OpInfo { mode: AddressingMode::Implicit, cycles: 2, bytes: 1 })),
        0xF9 => Some((Mnemonic::Sbc, OpInfo { mode: AddressingMode::AbsoluteY, cycles: 4, bytes: 3 })),
        0xFD => Some((Mnemonic::Sbc, OpInfo { mode: AddressingMode::AbsoluteX, cycles: 4, bytes: 3 })),
        0xFE => Some((Mnemonic::Inc, OpInfo { mode: AddressingMode::AbsoluteX, cycles: 7, bytes: 3 })),
        _ => None,
    }
}

/// Look an opcode byte up in the decode table.
pub fn decode(op: u8) -> (r: Option<(Mnemonic, OpInfo)>)
    ensures
        r == spec_decode(op),
        r matches Some(e) ==> 1 <= e.1.bytes <= 3,
        r matches Some(e) ==> 2 <= e.1.cycles <= 7,
        r matches Some(e) ==> (needs_memory_operand(e.0) ==> mode_has_operand(e.1.mode)),
        r matches Some(e) ==> (is_shift(e.0) ==> !(e.1.mode is Implicit)),
{
    match op {
        0x00 => Some((Mnemonic::Brk, OpInfo { mode: AddressingMode::Implicit, cycles: 7, bytes: 1 })),
        0x01 => Some((Mnemonic::Ora, OpInfo { mode: AddressingMode::IndexedIndirect, cycles: 6, bytes: 2 })),
        0x05 => Some((Mnemonic::Ora, OpInfo { mode: AddressingMode::ZeroPage, cycles: 3, bytes: 2 })),
        0x06 => Some((Mnemonic::Asl, OpInfo { mode: AddressingMode::ZeroPage, cycles: 5, bytes: 2 })),
        0x08 => Some((Mnemonic::Php, OpInfo { mode: AddressingMode::Implicit, cycles: 3, bytes: 1 })),
        0x09 => Some((Mnemonic::Ora, OpInfo { mode: AddressingMode::Immediate, cycles: 2, bytes: 2 })),
        0x0A => Some((Mnemonic::Asl, OpInfo { mode: AddressingMode::Accumulator, cycles: 2, bytes: 1 })),
        0x0D => Some((Mnemonic::Ora, OpInfo { mode: AddressingMode::Absolute, cycles: 4, bytes: 3 })),
        0x0E => Some((Mnemonic::Asl, OpInfo { mode: AddressingMode::Absolute, cycles: 6, bytes: 3 })),
        0x10 => Some((Mnemonic::Bpl, OpInfo { mode: AddressingMode::Relative, cycles: 2, bytes: 2 })),
        0x11 => Some((Mnemonic::Ora, OpInfo { mode: AddressingMode::IndirectIndexed, cycles: 5, bytes: 2 })),
        0x15 => Some((Mnemonic::Ora, OpInfo { mode: AddressingMode::ZeroPageX, cycles: 4, bytes: 2 })),
        0x16 => Some((Mnemonic::Asl, OpInfo { mode: AddressingMode::ZeroPageX, cycles: 6, bytes: 2 })),
        0x18 => Some((Mnemonic::Clc, OpInfo { mode: AddressingMode::Implicit, cycles: 2, bytes: 1 })),
        0x19 => Some((Mnemonic::Ora, OpInfo { mode: AddressingMode::AbsoluteY, cycles: 4, bytes: 3 })),
        0x1D => Some((Mnemonic::Ora, OpInfo { mode: AddressingMode::AbsoluteX, cycles: 4, bytes: 3 })),
        0x1E => Some((Mnemonic::Asl, OpInfo { mode: AddressingMode::AbsoluteX, cycles: 7, bytes: 3 })),
        0x20 => Some((Mnemonic::Jsr, OpInfo { mode: AddressingMode::Absolute, cycles: 6, bytes: 3 })),
        0x21 => Some((Mnemonic::And, OpInfo { mode: AddressingMode::IndexedIndirect, cycles: 6, bytes: 2 })),
        0x24 => Some((Mnemonic::Bit, OpInfo { mode: AddressingMode::ZeroPage, cycles: 3, bytes: 2 })),
        0x25 => Some((Mnemonic::And, OpInfo { mode: AddressingMode::ZeroPage, cycles: 3, bytes: 2 })),
        0x26 => Some((Mnemonic::Rol, OpInfo { mode: AddressingMode::ZeroPage, cycles: 5, bytes: 2 })),
        0x28 => Some((Mnemonic::Plp, OpInfo { mode: AddressingMode::Implicit, cycles: 4, bytes: 1 })),
        0x29 => Some((Mnemonic::And, OpInfo { mode: AddressingMode::Immediate, cycles: 2, bytes: 2 })),
        0x2A => Some((Mnemonic::Rol, OpInfo { mode: AddressingMode::Accumulator, cycles: 2, bytes: 1 })),
        0x2C => Some((Mnemonic::Bit, OpInfo { mode: AddressingMode::Absolute, cycles: 4, bytes: 3 })),
        0x2D => Some((Mnemonic::And, OpInfo { mode: AddressingMode::Absolute, cycles: 4, bytes: 3 })),
        0x2E => Some((Mnemonic::Rol, OpInfo { mode: AddressingMode::Absolute, cycles: 6, bytes: 3 })),
        0x30 => Some((Mnemonic::Bmi, OpInfo { mode: AddressingMode::Relative, cycles: 2, bytes: 2 })),
        0x31 => Some((Mnemonic::And, OpInfo { mode: AddressingMode::IndirectIndexed, cycles: 5, bytes: 2 })),
        0x35 => Some((Mnemonic::And, OpInfo { mode: AddressingMode::ZeroPageX, cycles: 4, bytes: 2 })),
        0x36 => Some((Mnemonic::Rol, OpInfo { mode: AddressingMode::ZeroPageX, cycles: 6, bytes: 2 })),
        0x38 => Some((Mnemonic::Sec, OpInfo { mode: AddressingMode::Implicit, cycles: 2, bytes: 1 })),
        0x39 => Some((Mnemonic::And, OpInfo { mode: AddressingMode::AbsoluteY, cycles: 4, bytes: 3 })),
        0x3D => Some((Mnemonic::And, OpInfo { mode: AddressingMode::AbsoluteX, cycles: 4, bytes: 3 })),
        0x3E => Some((Mnemonic::Rol, OpInfo { mode: AddressingMode::AbsoluteX, cycles: 7, bytes: 3 })),
        0x40 => Some((Mnemonic::Rti, OpInfo { mode: AddressingMode::Implicit, cycles: 6, bytes: 1 })),
        0x41 => Some((Mnemonic::Eor, OpInfo { mode: AddressingMode::IndexedIndirect, cycles: 6, bytes: 2 })),
        0x45 => Some((Mnemonic::Eor, OpInfo { mode: AddressingMode::ZeroPage, cycles: 3, bytes: 2 })),
        0x46 => Some((Mnemonic::Lsr, OpInfo { mode: AddressingMode::ZeroPage, cycles: 5, bytes: 2 })),
        0x48 => Some((Mnemonic::Pha, OpInfo { mode: AddressingMode::Implicit, cycles: 3, bytes: 1 })),
        0x49 => Some((Mnemonic::Eor, OpInfo { mode: AddressingMode::Immediate, cycles: 2, bytes: 2 })),
        0x4A => Some((Mnemonic::Lsr, OpInfo { mode: AddressingMode::Accumulator, cycles: 2, bytes: 1 })),
        0x4C => Some((Mnemonic::Jmp, OpInfo { mode: AddressingMode::Absolute, cycles: 3, bytes: 3 })),
        0x4D => Some((Mnemonic::Eor, OpInfo { mode: AddressingMode::Absolute, cycles: 4, bytes: 3 })),
        0x4E => Some((Mnemonic::Lsr, OpInfo { mode: AddressingMode::Absolute, cycles: 6, bytes: 3 })),
        0x50 => Some((Mnemonic::Bvc, OpInfo { mode: AddressingMode::Relative, cycles: 2, bytes: 2 })),
        0x51 => Some((Mnemonic::Eor, OpInfo { mode: AddressingMode::IndirectIndexed, cycles: 5, bytes: 2 })),
        0x55 => Some((Mnemonic::Eor, OpInfo { mode: AddressingMode::ZeroPageX, cycles: 4, bytes: 2 })),
        0x56 => Some((Mnemonic::Lsr, OpInfo { mode: AddressingMode::ZeroPageX, cycles: 6, bytes: 2 })),
        0x58 => Some((Mnemonic::Cli, OpInfo { mode: AddressingMode::Implicit, cycles: 2, bytes: 1 })),
        0x59 => Some((Mnemonic::Eor, OpInfo { mode: AddressingMode::AbsoluteY, cycles: 4, bytes: 3 })),
        0x5D => Some((Mnemonic::Eor, OpInfo { mode: AddressingMode::AbsoluteX, cycles: 4, bytes: 3 })),
        0x5E => Some((Mnemonic::Lsr, OpInfo { mode: AddressingMode::AbsoluteX, cycles: 7, bytes: 3 })),
        0x60 => Some((Mnemonic::Rts, OpInfo { mode: AddressingMode::Implicit, cycles: 6, bytes: 1 })),
        0x61 => Some((Mnemonic::Adc, OpInfo { mode: AddressingMode::IndexedIndirect, cycles: 6, bytes: 2 })),
        0x65 => Some((Mnemonic::Adc, OpInfo { mode: AddressingMode::ZeroPage, cycles: 3, bytes: 2 })),
        0x66 => Some((Mnemonic::Ror, OpInfo { mode: AddressingMode::ZeroPage, cycles: 5, bytes: 2 })),
        0x68 => Some((Mnemonic::Pla, OpInfo { mode: AddressingMode::Implicit, cycles: 4, bytes: 1 })),
        0x69 => Some((Mnemonic::Adc, OpInfo { mode: AddressingMode::Immediate, cycles: 2, bytes: 2 })),
        0x6A => Some((Mnemonic::Ror, OpInfo { mode: AddressingMode::Accumulator, cycles: 2, bytes: 1 })),
        0x6C => Some((Mnemonic::Jmp, OpInfo { mode: AddressingMode::Indirect, cycles: 5, bytes: 3 })),
        0x6D => Some((Mnemonic::Adc, OpInfo { mode: AddressingMode::Absolute, cycles: 4, bytes: 3 })),
        0x6E => Some((Mnemonic::Ror, OpInfo { mode: AddressingMode::Absolute, cycles: 6, bytes: 3 })),
        0x70 => Some((Mnemonic::Bvs, OpInfo { mode: AddressingMode::Relative, cycles: 2, bytes: 2 })),
        0x71 => Some((Mnemonic::Adc, OpInfo { mode: AddressingMode::IndirectIndexed, cycles: 5, bytes: 2 })),
        0x75 => Some((Mnemonic::Adc, OpInfo { mode: AddressingMode::ZeroPageX, cycles: 4, bytes: 2 })),
        0x76 => Some((Mnemonic::Ror, OpInfo { mode: AddressingMode::ZeroPageX, cycles: 6, bytes: 2 })),
        0x78 => Some((Mnemonic::Sei, OpInfo { mode: AddressingMode::Implicit, cycles: 2, bytes: 1 })),
        0x79 => Some((Mnemonic::Adc, OpInfo { mode: AddressingMode::AbsoluteY, cycles: 4, bytes: 3 })),
        0x7D => Some((Mnemonic::Adc, OpInfo { mode: AddressingMode::AbsoluteX, cycles: 4, bytes: 3 })),
        0x7E => Some((Mnemonic::Ror, OpInfo { mode: AddressingMode::AbsoluteX, cycles: 7, bytes: 3 })),
        0x81 => Some((Mnemonic::Sta, OpInfo { mode: AddressingMode::IndexedIndirect, cycles: 6, bytes: 2 })),
        0x84 => Some((Mnemonic::Sty, OpInfo { mode: AddressingMode::ZeroPage, cycles: 3, bytes: 2 })),
        0x85 => Some((Mnemonic::Sta, OpInfo { mode: AddressingMode::ZeroPage, cycles: 3, bytes: 2 })),
        0x86 => Some((Mnemonic::Stx, OpInfo { mode: AddressingMode::ZeroPage, cycles: 3, bytes: 2 })),
        0x88 => Some((Mnemonic::Dey, OpInfo { mode: AddressingMode::Implicit, cycles: 2, bytes: 1 })),
        0x8A => Some((Mnemonic::Txa, OpInfo { mode: AddressingMode::Implicit, cycles: 2, bytes: 1 })),
        0x8C => Some((Mnemonic::Sty, OpInfo { mode: AddressingMode::Absolute, cycles: 4, bytes: 3 })),
        0x8D => Some((Mnemonic::Sta, OpInfo { mode: AddressingMode::Absolute, cycles: 4, bytes: 3 })),
        0x8E => Some((Mnemonic::Stx, OpInfo { mode: AddressingMode::Absolute, cycles: 4, bytes: 3 })),
        0x90 => Some((Mnemonic::Bcc, OpInfo { mode: AddressingMode::Relative, cycles: 2, bytes: 2 })),
        0x91 => Some((Mnemonic::Sta, OpInfo { mode: AddressingMode::IndirectIndexed, cycles: 6, bytes: 2 })),
        0x94 => Some((Mnemonic::Sty, OpInfo { mode: AddressingMode::ZeroPageX, cycles: 4, bytes: 2 })),
        0x95 => Some((Mnemonic::Sta, OpInfo { mode: AddressingMode::ZeroPageX, cycles: 4, bytes: 2 })),
        0x96 => Some((Mnemonic::Stx, OpInfo { mode: AddressingMode::ZeroPageY, cycles: 4, bytes: 2 })),
        0x98 => Some((Mnemonic::Tya, OpInfo { mode: AddressingMode::Implicit, cycles: 2, bytes: 1 })),
        0x99 => Some((Mnemonic::Sta, OpInfo { mode: AddressingMode::AbsoluteY, cycles: 5, bytes: 3 })),
        0x9A => Some((Mnemonic::Txs, OpInfo { mode: AddressingMode::Implicit, cycles: 2, bytes: 1 })),
        0x9D => Some((Mnemonic::Sta, OpInfo { mode: AddressingMode::AbsoluteX, cycles: 5, bytes: 3 })),
        0xA0 => Some((Mnemonic::Ldy, OpInfo { mode: AddressingMode::Immediate, cycles: 2, bytes: 2 })),
        0xA1 => Some((Mnemonic::Lda, OpInfo { mode: AddressingMode::IndexedIndirect, cycles: 6, bytes: 2 })),
        0xA2 => Some((Mnemonic::Ldx, OpInfo { mode: AddressingMode::Immediate, cycles: 2, bytes: 2 })),
        0xA4 => Some((Mnemonic::Ldy, OpInfo { mode: AddressingMode::ZeroPage, cycles: 3, bytes: 2 })),
        0xA5 => Some((Mnemonic::Lda, OpInfo { mode: AddressingMode::ZeroPage, cycles: 3, bytes: 2 })),
        0xA6 => Some((Mnemonic::Ldx, OpInfo { mode: AddressingMode::ZeroPage, cycles: 3, bytes: 2 })),
        0xA8 => Some((Mnemonic::Tay, OpInfo { mode: AddressingMode::Implicit, cycles: 2, bytes: 1 })),
        0xA9 => Some((Mnemonic::Lda, OpInfo { mode: AddressingMode::Immediate, cycles: 2, bytes: 2 })),
        0xAA => Some((Mnemonic::Tax, OpInfo { mode: AddressingMode::Implicit, cycles: 2, bytes: 1 })),
        0xAC => Some((Mnemonic::Ldy, OpInfo { mode: AddressingMode::Absolute, cycles: 4, bytes: 3 })),
        0xAD => Some((Mnemonic::Lda, OpInfo { mode: AddressingMode::Absolute, cycles: 4, bytes: 3 })),
        0xAE => Some((Mnemonic::Ldx, OpInfo { mode: AddressingMode::Absolute, cycles: 4, bytes: 3 })),
        0xB0 => Some((Mnemonic::Bcs, OpInfo { mode: AddressingMode::Relative, cycles: 2, bytes: 2 })),
        0xB1 => Some((Mnemonic::Lda, OpInfo { mode: AddressingMode::IndirectIndexed, cycles: 5, bytes: 2 })),
        0xB4 => Some((Mnemonic::Ldy, OpInfo { mode: AddressingMode::ZeroPageX, cycles: 4, bytes: 2 })),
        0xB5 => Some((Mnemonic::Lda, OpInfo { mode: AddressingMode::ZeroPageX, cycles: 4, bytes: 2 })),
        0xB6 => Some((Mnemonic::Ldx, OpInfo { mode: AddressingMode::ZeroPageY, cycles: 4, bytes: 2 })),
        0xB8 => Some((Mnemonic::Clv, OpInfo { mode: AddressingMode::Implicit, cycles: 2, bytes: 1 })),
        0xB9 => Some((Mnemonic::Lda, OpInfo { mode: AddressingMode::AbsoluteY, cycles: 4, bytes: 3 })),
        0xBA => Some((Mnemonic::Tsx, OpInfo { mode: AddressingMode::Implicit, cycles: 2, bytes: 1 })),
        0xBC => Some((Mnemonic::Ldy, OpInfo { mode: AddressingMode::AbsoluteX, cycles: 4, bytes: 3 })),
        0xBD => Some((Mnemonic::Lda, OpInfo { mode: AddressingMode::AbsoluteX, cycles: 4, bytes: 3 })),
        0xBE => Some((Mnemonic::Ldx, OpInfo { mode: AddressingMode::AbsoluteY, cycles: 4, bytes: 3 })),
        0xC0 => Some((Mnemonic::Cpy, OpInfo { mode: AddressingMode::Immediate, cycles: 2, bytes: 2 })),
        0xC1 => Some((Mnemonic::Cmp, OpInfo { mode: AddressingMode::IndexedIndirect, cycles: 6, bytes: 2 })),
        0xC4 => Some((Mnemonic::Cpy, OpInfo { mode: AddressingMode::ZeroPage, cycles: 3, bytes: 2 })),
        0xC5 => Some((Mnemonic::Cmp, OpInfo { mode: AddressingMode::ZeroPage, cycles: 3, bytes: 2 })),
        0xC6 => Some((Mnemonic::Dec, OpInfo { mode: AddressingMode::ZeroPage, cycles: 5, bytes: 2 })),
        0xC8 => Some((Mnemonic::Iny, OpInfo { mode: AddressingMode::Implicit, cycles: 2, bytes: 1 })),
        0xC9 => Some((Mnemonic::Cmp, OpInfo { mode: AddressingMode::Immediate, cycles: 2, bytes: 2 })),
        0xCA => Some((Mnemonic::Dex, OpInfo { mode: AddressingMode::Implicit, cycles: 2, bytes: 1 })),
        0xCC => Some((Mnemonic::Cpy, OpInfo { mode: AddressingMode::Absolute, cycles: 4, bytes: 3 })),
        0xCD => Some((Mnemonic::Cmp, OpInfo { mode: AddressingMode::Absolute, cycles: 4, bytes: 3 })),
        0xCE => Some((Mnemonic::Dec, OpInfo { mode: AddressingMode::Absolute, cycles: 6, bytes: 3 })),
        0xD0 => Some((Mnemonic::Bne, OpInfo { mode: AddressingMode::Relative, cycles: 2, bytes: 2 })),
        0xD1 => Some((Mnemonic::Cmp, OpInfo { mode: AddressingMode::IndirectIndexed, cycles: 5, bytes: 2 })),
        0xD5 => Some((Mnemonic::Cmp, OpInfo { mode: AddressingMode::ZeroPageX, cycles: 4, bytes: 2 })),
        0xD6 => Some((Mnemonic::Dec, OpInfo { mode: AddressingMode::ZeroPageX, cycles: 6, bytes: 2 })),
        0xD8 => Some((Mnemonic::Cld, OpInfo { mode: AddressingMode::Implicit, cycles: 2, bytes: 1 })),
        0xD9 => Some((Mnemonic::Cmp, OpInfo { mode: AddressingMode::AbsoluteY, cycles: 4, bytes: 3 })),
        0xDD => Some((Mnemonic::Cmp, OpInfo { mode: AddressingMode::AbsoluteX, cycles: 4, bytes: 3 })),
        0xDE => Some((Mnemonic::Dec, OpInfo { mode: AddressingMode::AbsoluteX, cycles: 7, bytes: 3 })),
        0xE0 => Some((Mnemonic::Cpx, OpInfo { mode: AddressingMode::Immediate, cycles: 2, bytes: 2 })),
        0xE1 => Some((Mnemonic::Sbc, OpInfo { mode: AddressingMode::IndexedIndirect, cycles: 6, bytes: 2 })),
        0xE4 => Some((Mnemonic::Cpx, OpInfo { mode: AddressingMode::ZeroPage, cycles: 3, bytes: 2 })),
        0xE5 => Some((Mnemonic::Sbc, OpInfo { mode: AddressingMode::ZeroPage, cycles: 3, bytes: 2 })),
        0xE6 => Some((Mnemonic::Inc, OpInfo { mode: AddressingMode::ZeroPage, cycles: 5, bytes: 2 })),
        0xE8 => Some((Mnemonic::Inx, OpInfo { mode: AddressingMode::Implicit, cycles: 2, bytes: 1 })),
        0xE9 => Some((Mnemonic::Sbc, OpInfo { mode: AddressingMode::Immediate, cycles: 2, bytes: 2 })),
        0xEA => Some((Mnemonic::Nop, OpInfo { mode: AddressingMode::Implicit, cycles: 2, bytes: 1 })),
        0xEC => Some((Mnemonic::Cpx, OpInfo { mode: AddressingMode::Absolute, cycles: 4, bytes: 3 })),
        0xED => Some((Mnemonic::Sbc, OpInfo { mode: AddressingMode::Absolute, cycles: 4, bytes: 3 })),
        0xEE => Some((Mnemonic::Inc, OpInfo { mode: AddressingMode::Absolute, cycles: 6, bytes: 3 })),
        0xF0 => Some((Mnemonic::Beq, OpInfo { mode: AddressingMode::Relative, cycles: 2, bytes: 2 })),
        0xF1 => Some((Mnemonic::Sbc, OpInfo { mode: AddressingMode::IndirectIndexed, cycles: 5, bytes: 2 })),
        0xF5 => Some((Mnemonic::Sbc, OpInfo { mode: AddressingMode::ZeroPageX, cycles: 4, bytes: 2 })),
        0xF6 => Some((Mnemonic::Inc, OpInfo { mode: AddressingMode::ZeroPageX, cycles: 6, bytes: 2 })),
        0xF8 => Some((Mnemonic::Sed, OpInfo { mode: AddressingMode::Implicit, cycles: 2, bytes: 1 })),
        0xF9 => Some((Mnemonic::Sbc, OpInfo { mode: AddressingMode::AbsoluteY, cycles: 4, bytes: 3 })),
        0xFD => Some((Mnemonic::Sbc, OpInfo { mode: AddressingMode::AbsoluteX, cycles: 4, bytes: 3 })),
        0xFE => Some((Mnemonic::Inc, OpInfo { mode: AddressingMode::AbsoluteX, cycles: 7, bytes: 3 })),
        _ => None,
    }
}

/// Every entry of the decode table is well formed: between one and three
/// bytes long, between two and seven base cycles, and with an addressing
/// mode that carries an operand wherever the mnemonic reads or writes one.
pub proof fn lemma_decode_entries_well_formed(op: u8)
    ensures
        spec_decode(op) matches Some(e) ==> 1 <= e.1.bytes <= 3,
        spec_decode(op) matches Some(e) ==> 2 <= e.1.cycles <= 7,
        spec_decode(op) matches Some(e) ==> (needs_memory_operand(e.0) ==> mode_has_operand(
            e.1.mode,
        )),
        spec_decode(op) matches Some(e) ==> (is_shift(e.0) ==> !(e.1.mode is Implicit)),
{
}

} // verus!
