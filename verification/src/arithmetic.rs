use vstd::prelude::*;
use crate::cpu::{
    added, compared, flag_set, rotated_left, rotated_right, shifted_left, shifted_right, subtracted, FLAG_C, FLAG_N,
    FLAG_V, FLAG_Z,
};

verus! {

/// The carry of a status byte as a number.
pub open spec fn carry_in(status: u8) -> int {
    if flag_set(status, FLAG_C) {
        1
    } else {
        0
    }
}

/// A byte read as a signed number.
pub open spec fn signed(value: u8) -> int {
    if value >= 128 {
        value - 256
    } else {
        value as int
    }
}

/// The adder's sum, flag by flag, in bits.
proof fn lemma_adder_bits(a: u8, v: u8, status: u8)
    by (bit_vector)
    ensures
        ({
            let carry: u16 = if (status & 0x01u8) > 0 { 1u16 } else { 0u16 };
            let temp: u16 = ((a as u16) + (v as u16) + carry) as u16;
            let s1: u8 = if temp > 255 { status | 0x01u8 } else { status & !0x01u8 };
            let s2: u8 = if (temp & 0x00FF) == 0 { s1 | 0x02u8 } else { s1 & !0x02u8 };
            let s3: u8 = if (temp & 0x0080) == 0x0080 { s2 | 0x80u8 } else { s2 & !0x80u8 };
            let s4: u8 = if (!((a as u16) ^ (v as u16)) & ((a as u16) ^ temp) & 0x0080) == 0x0080 {
                s3 | 0x40u8
            } else {
                s3 & !0x40u8
            };
            let r: u8 = (temp & 0x00FF) as u8;
            &&& temp == (a as u16) + (v as u16) + carry
            &&& r as u16 == temp % 256
            &&& ((s4 & 0x01u8) > 0) == (temp > 255)
            &&& ((s4 & 0x02u8) > 0) == (r == 0)
            &&& ((s4 & 0x80u8) > 0) == (r >= 128)
            &&& ((s4 & 0x40u8) > 0) == ((a >= 128) == (v >= 128) && (r >= 128) != (a >= 128))
            &&& s4 & 0x3Cu8 == status & 0x3Cu8
        }),
{
}

/// Inverting a byte is subtracting it from 255.
proof fn lemma_inverted(v: u8)
    by (bit_vector)
    ensures
        (v ^ 0xFF) == 255 - v,
{
}

/// Add with carry is addition: the accumulator gets the sum of itself, the operand
/// and the carry, less 256 if that does not fit; carry tells whether it did not fit;
/// overflow tells whether the sum of the three as signed numbers does not fit in a
/// signed byte; zero and negative describe the result. No other flag changes.
pub proof fn lemma_adc_adds(a: u8, v: u8, status: u8)
    ensures
        ({
            let (r, s) = added(a, v, status);
            let sum = a + v + carry_in(status);
            let signed_sum = signed(a) + signed(v) + carry_in(status);
            &&& r == sum % 256
            &&& flag_set(s, FLAG_C) == (sum > 255)
            &&& flag_set(s, FLAG_Z) == (r == 0)
            &&& flag_set(s, FLAG_N) == (r >= 128)
            &&& flag_set(s, FLAG_V) == !(-128 <= signed_sum <= 127)
            &&& s & 0x3C == status & 0x3C
        }),
{
    lemma_adder_bits(a, v, status);
}

/// Subtract with borrow is subtraction: the accumulator gets itself less the operand
/// and less one more if carry is clear, plus 256 if that is negative; carry tells
/// whether it was not negative; overflow tells whether the difference of the signed
/// numbers does not fit in a signed byte.
pub proof fn lemma_sbc_subtracts(a: u8, v: u8, status: u8)
    ensures
        ({
            let (r, s) = subtracted(a, v, status);
            let difference = a - v - (1 - carry_in(status));
            let signed_difference = signed(a) - signed(v) - (1 - carry_in(status));
            &&& r == difference % 256
            &&& flag_set(s, FLAG_C) == (difference >= 0)
            &&& flag_set(s, FLAG_Z) == (r == 0)
            &&& flag_set(s, FLAG_N) == (r >= 128)
            &&& flag_set(s, FLAG_V) == !(-128 <= signed_difference <= 127)
        }),
{
    lemma_inverted(v);
    lemma_adder_bits(a, v ^ 0xFF, status);
}

/// The flags of a comparison, in bits.
proof fn lemma_comparison_bits(register: u8, v: u8, status: u8)
    by (bit_vector)
    ensures
        ({
            let d: u8 = ((256 + register - v) % 256) as u8;
            let s1: u8 = if register >= v { status | 0x01u8 } else { status & !0x01u8 };
            let s2: u8 = if d == 0 { s1 | 0x02u8 } else { s1 & !0x02u8 };
            let s3: u8 = if (d & 0x80u8) == 0x80u8 { s2 | 0x80u8 } else { s2 & !0x80u8 };
            &&& ((s3 & 0x01u8) > 0) == (register >= v)
            &&& ((s3 & 0x02u8) > 0) == (register == v)
            &&& ((s3 & 0x80u8) > 0) == (d >= 128)
        }),
{
}

/// A comparison sets carry where the register is at least the operand, zero where
/// they are equal, and negative from bit 7 of their difference.
pub proof fn lemma_compare_orders(register: u8, v: u8, status: u8)
    ensures
        flag_set(compared(register, v, status), FLAG_C) == (register >= v),
        flag_set(compared(register, v, status), FLAG_Z) == (register == v),
        flag_set(compared(register, v, status), FLAG_N) == ((register - v) % 256 >= 128),
{
    lemma_comparison_bits(register, v, status);
}

/// A shift left doubles the value and drops what does not fit; a shift right halves
/// it; a rotate does the same and brings the carry in at the other end. The bit that
/// leaves goes to carry.
pub proof fn lemma_shifts_double_and_halve(v: u8, status: u8)
    ensures
        shifted_left(v, status).0 == (2 * v) % 256,
        shifted_right(v, status).0 == v / 2,
        rotated_left(v, status).0 == (2 * v) % 256 + carry_in(status),
        rotated_right(v, status).0 == 128 * carry_in(status) + v / 2,
{
    assert((v << 1u8) == (2 * v) % 256) by (bit_vector);
    assert((v >> 1u8) == v / 2) by (bit_vector);
    assert(((v << 1u8) | 1u8) == (2 * v) % 256 + 1 && ((v << 1u8) | 0u8) == (2 * v) % 256) by (bit_vector);
    assert((0x80u8 | (v >> 1u8)) == 128 + v / 2 && (0u8 | (v >> 1u8)) == v / 2) by (bit_vector);
}

} // verus!
