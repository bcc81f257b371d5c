//! Arithmetic helpers: signed-overflow detection for add and subtract.

use vstd::prelude::*;

verus! {

/// Mask of the most significant bit of a byte: the sign bit.
#[allow(non_upper_case_globals)]
pub const msb: u8 = 0x01 << 7;

/// Whether adding `a` and `b` (with any carry-in) to produce the byte `c`
/// overflows as a signed operation: the operands agree in sign and the
/// result disagrees.
pub open spec fn spec_overflow_bit(a: u8, b: u8, c: u8) -> bool {
    ((a ^ c) & (b ^ c) & 0x80) != 0
}

/// Checks whether the overflow flag has to be set. `a` and `b` are the
/// operands of the addition, `c` its byte result. Adding two operands with
/// equal sign bits must give a result with that same sign bit; any other
/// combination of signs cannot overflow.
pub fn calculate_overflow_bit(a: u8, b: u8, c: u8) -> (r: bool)
    ensures
        r == spec_overflow_bit(a, b, c),
{
    proof {
        assert(msb == 0x80) by (bit_vector);
        lemma_overflow_bit_forms(a, b, c);
    }
    ((!a & !b & c) | (a & b & !c)) & msb == msb
}

/// The two readings of signed overflow agree: "both operands positive with a
/// negative result, or both negative with a non-negative result" is the same
/// test as "the sign of the result differs from the sign of each operand".
pub proof fn lemma_overflow_bit_forms(a: u8, b: u8, c: u8)
    by (bit_vector)
    ensures
        ((((!a & !b & c) | (a & b & !c)) & 0x80) == 0x80) == (((a ^ c) & (b ^ c) & 0x80) != 0),
{
}

} // verus!
