//! The processor status register: eight independent flags with a packed
//! byte representation.

use vstd::prelude::*;

verus! {

/// The bit positions of the flags inside the packed status byte.
pub enum StatusRegisterBits {
    CarryFlag,
    ZeroFlag,
    InterruptDisable,
    DecimalMode,
    BreakCommand,
    UnusedBit,
    OverflowFlag,
    NegativeFlag,
}

impl StatusRegisterBits {
    pub open spec fn spec_position(self) -> u8 {
        match self {
            StatusRegisterBits::CarryFlag => 0,
            StatusRegisterBits::ZeroFlag => 1,
            StatusRegisterBits::InterruptDisable => 2,
            StatusRegisterBits::DecimalMode => 3,
            StatusRegisterBits::BreakCommand => 4,
            StatusRegisterBits::UnusedBit => 5,
            StatusRegisterBits::OverflowFlag => 6,
            StatusRegisterBits::NegativeFlag => 7,
        }
    }

    /// The index of this flag's bit in the packed byte, counted from the
    /// least significant bit.
    pub fn position(self) -> (n: u8)
        ensures
            n == self.spec_position(),
    {
        match self {
            StatusRegisterBits::CarryFlag => 0,
            StatusRegisterBits::ZeroFlag => 1,
            StatusRegisterBits::InterruptDisable => 2,
            StatusRegisterBits::DecimalMode => 3,
            StatusRegisterBits::BreakCommand => 4,
            StatusRegisterBits::UnusedBit => 5,
            StatusRegisterBits::OverflowFlag => 6,
            StatusRegisterBits::NegativeFlag => 7,
        }
    }
}

/// The eight flags of the 6502 status register. Bit 0 of the packed byte is
/// the carry, bit 7 the negative flag; bit 5 is unused on the silicon but
/// still stored.
#[derive(Debug, Clone, Copy, PartialEq, Eq, Structural)]
pub struct StatusRegister {
    pub carry_flag: bool,
    pub zero_flag: bool,
    pub interrupt_disable: bool,
    pub decimal_mode: bool,
    pub break_command: bool,
    pub overflow_flag: bool,
    pub negative_flag: bool,
    pub unused_bit: bool,
}

/// The contribution of one flag to the packed byte: its mask when set,
/// nothing when clear.
pub open spec fn flag_bit(f: bool, mask: u8) -> u8 {
    if f {
        mask
    } else {
        0
    }
}

/// The byte a status register packs to: each flag contributes its bit.
pub open spec fn spec_to_u8(s: StatusRegister) -> u8 {
    flag_bit(s.carry_flag, 0x01) | flag_bit(s.zero_flag, 0x02) | flag_bit(
        s.interrupt_disable,
        0x04,
    ) | flag_bit(s.decimal_mode, 0x08) | flag_bit(s.break_command, 0x10) | flag_bit(
        s.unused_bit,
        0x20,
    ) | flag_bit(s.overflow_flag, 0x40) | flag_bit(s.negative_flag, 0x80)
}

/// The status register a byte unpacks to: each flag reads its bit.
pub open spec fn spec_from_u8(b: u8) -> StatusRegister {
    StatusRegister {
        carry_flag: b & 0x01 == 1,
        zero_flag: (b >> 1) & 0x01 == 1,
        interrupt_disable: (b >> 2) & 0x01 == 1,
        decimal_mode: (b >> 3) & 0x01 == 1,
        break_command: (b >> 4) & 0x01 == 1,
        unused_bit: (b >> 5) & 0x01 == 1,
        overflow_flag: (b >> 6) & 0x01 == 1,
        negative_flag: (b >> 7) & 0x01 == 1,
    }
}

impl StatusRegister {
    pub fn new() -> (s: StatusRegister)
        ensures
            !s.carry_flag,
            !s.zero_flag,
            !s.interrupt_disable,
            !s.decimal_mode,
            !s.break_command,
            !s.overflow_flag,
            !s.negative_flag,
            !s.unused_bit,
    {
        StatusRegister {
            carry_flag: false,
            zero_flag: false,
            interrupt_disable: false,
            decimal_mode: false,
            break_command: false,
            overflow_flag: false,
            negative_flag: false,
            unused_bit: false,
        }
    }

    /// Unpack a byte into a fresh status register.
    pub fn from_u8(b: u8) -> (s: StatusRegister)
        ensures
            s == spec_from_u8(b),
    {
        let mut s = StatusRegister::new();
        s.set_all(b);
        s
    }

    /// Store every flag from its bit in the given byte.
    pub fn set_all(&mut self, b: u8)
        ensures
            *final(self) == spec_from_u8(b),
    {
        self.carry_flag = b & 0x01 == 1;
        self.zero_flag = (b >> 1) & 0x01 == 1;
        self.interrupt_disable = (b >> 2) & 0x01 == 1;
        self.decimal_mode = (b >> 3) & 0x01 == 1;
        self.break_command = (b >> 4) & 0x01 == 1;
        self.unused_bit = (b >> 5) & 0x01 == 1;
        self.overflow_flag = (b >> 6) & 0x01 == 1;
        self.negative_flag = (b >> 7) & 0x01 == 1;
    }

    /// Pack the eight flags into one byte.
    pub fn to_u8(&self) -> (b: u8)
        ensures
            b == spec_to_u8(*self),
    {
        let c: u8 = if self.carry_flag {
            0x01
        } else {
            0
        };
        let z: u8 = if self.zero_flag {
            0x02
        } else {
            0
        };
        let i: u8 = if self.interrupt_disable {
            0x04
        } else {
            0
        };
        let d: u8 = if self.decimal_mode {
            0x08
        } else {
            0
        };
        let k: u8 = if self.break_command {
            0x10
        } else {
            0
        };
        let u: u8 = if self.unused_bit {
            0x20
        } else {
            0
        };
        let v: u8 = if self.overflow_flag {
            0x40
        } else {
            0
        };
        let n: u8 = if self.negative_flag {
            0x80
        } else {
            0
        };
        c | z | i | d | k | u | v | n
    }
}

/// The byte `PHP` and `BRK` push: the current flags with the break and
/// unused bits forced to one.
pub open spec fn spec_php_byte(s: StatusRegister) -> u8 {
    spec_to_u8(StatusRegister { break_command: true, unused_bit: true, ..s })
}

/// The register `PLP` and `RTI` restore: every flag from its bit in the
/// pulled byte, except the break and unused bits, which are masked out.
pub open spec fn spec_plp_restore(b: u8) -> StatusRegister {
    StatusRegister { break_command: false, unused_bit: false, ..spec_from_u8(b) }
}

/// Each flag of a byte assembled from disjoint flag bits can be read back
/// from its own bit position.
proof fn lemma_assembled_bits(c: u8, z: u8, i: u8, d: u8, k: u8, u: u8, v: u8, n: u8)
    by (bit_vector)
    requires
        c == 0 || c == 0x01,
        z == 0 || z == 0x02,
        i == 0 || i == 0x04,
        d == 0 || d == 0x08,
        k == 0 || k == 0x10,
        u == 0 || u == 0x20,
        v == 0 || v == 0x40,
        n == 0 || n == 0x80,
    ensures
        ((c | z | i | d | k | u | v | n) & 0x01 == 1) <==> c == 0x01,
        (((c | z | i | d | k | u | v | n) >> 1) & 0x01 == 1) <==> z == 0x02,
        (((c | z | i | d | k | u | v | n) >> 2) & 0x01 == 1) <==> i == 0x04,
        (((c | z | i | d | k | u | v | n) >> 3) & 0x01 == 1) <==> d == 0x08,
        (((c | z | i | d | k | u | v | n) >> 4) & 0x01 == 1) <==> k == 0x10,
        (((c | z | i | d | k | u | v | n) >> 5) & 0x01 == 1) <==> u == 0x20,
        (((c | z | i | d | k | u | v | n) >> 6) & 0x01 == 1) <==> v == 0x40,
        (((c | z | i | d | k | u | v | n) >> 7) & 0x01 == 1) <==> n == 0x80,
{
}

/// Reassembling the eight bits extracted from a byte returns the byte; with
/// the break and unused positions forced to one instead, it returns the byte
/// masked at those positions.
proof fn lemma_extracted_bits(b: u8)
    by (bit_vector)
    ensures
        (if b & 0x01 == 1 {
            0x01u8
        } else {
            0
        }) | (if (b >> 1) & 0x01 == 1 {
            0x02u8
        } else {
            0
        }) | (if (b >> 2) & 0x01 == 1 {
            0x04u8
        } else {
            0
        }) | (if (b >> 3) & 0x01 == 1 {
            0x08u8
        } else {
            0
        }) | (if (b >> 4) & 0x01 == 1 {
            0x10u8
        } else {
            0
        }) | (if (b >> 5) & 0x01 == 1 {
            0x20u8
        } else {
            0
        }) | (if (b >> 6) & 0x01 == 1 {
            0x40u8
        } else {
            0
        }) | (if (b >> 7) & 0x01 == 1 {
            0x80u8
        } else {
            0
        }) == b,
        (if b & 0x01 == 1 {
            0x01u8
        } else {
            0
        }) | (if (b >> 1) & 0x01 == 1 {
            0x02u8
        } else {
            0
        }) | (if (b >> 2) & 0x01 == 1 {
            0x04u8
        } else {
            0
        }) | (if (b >> 3) & 0x01 == 1 {
            0x08u8
        } else {
            0
        }) | 0x10 | 0x20 | (if (b >> 6) & 0x01 == 1 {
            0x40u8
        } else {
            0
        }) | (if (b >> 7) & 0x01 == 1 {
            0x80u8
        } else {
            0
        }) == (b & 0xCF) | 0x30,
{
}

/// Unpacking the byte a status register packs to restores that register,
/// for every combination of flags.
pub proof fn lemma_status_round_trip(s: StatusRegister)
    ensures
        spec_from_u8(spec_to_u8(s)) == s,
{
    lemma_assembled_bits(
        flag_bit(s.carry_flag, 0x01),
        flag_bit(s.zero_flag, 0x02),
        flag_bit(s.interrupt_disable, 0x04),
        flag_bit(s.decimal_mode, 0x08),
        flag_bit(s.break_command, 0x10),
        flag_bit(s.unused_bit, 0x20),
        flag_bit(s.overflow_flag, 0x40),
        flag_bit(s.negative_flag, 0x80),
    );
}

/// Packing the register a byte unpacks to returns the byte unchanged: every
/// bit of the packed form stores exactly one flag.
pub proof fn lemma_byte_round_trip(b: u8)
    ensures
        spec_to_u8(spec_from_u8(b)) == b,
{
    lemma_extracted_bits(b);
}

/// Restoring flags from a byte as `PLP` does and pushing them back as `PHP`
/// does yields the byte with its break and unused bits forced to one: those
/// two bits are never stored, and a push always emits them as ones.
pub proof fn lemma_pull_then_push_byte(b: u8)
    ensures
        spec_php_byte(spec_plp_restore(b)) == ((b & 0xCF) | 0x30),
{
    lemma_extracted_bits(b);
}

} // verus!
