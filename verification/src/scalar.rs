//! The scalar layer: IEEE 754 single-precision values as their bit patterns.
//!
//! Every scalar in this crate is a `u32` holding the bit pattern of an IEEE
//! 754 single-precision number. The arithmetic itself is done by the float
//! unit behind small trusted wrappers; what each operation returns is named
//! by an uninterpreted spec function. IEEE 754 determines the result of
//! `+ - * /` and `sqrt` from the operand bits alone, with one exception: the
//! payload of a NaN result, which the platform leaves open. The contracts
//! therefore speak of canonical bits — `canon` collapses every NaN to the
//! one quiet NaN pattern — and pin each result exactly up to that payload.

use std::primitive::f32 as Single;
use vstd::prelude::*;

verus! {

/// The bit pattern of positive zero.
pub const ZERO_BITS: u32 = 0x0000_0000;

/// The bit pattern of one.
pub const ONE_BITS: u32 = 0x3F80_0000;

/// The bit pattern of two.
pub const TWO_BITS: u32 = 0x4000_0000;

/// The sign bit; flipping it negates an IEEE 754 value.
pub const SIGN_MASK: u32 = 0x8000_0000;

/// The bit pattern of positive infinity.
pub const INF_BITS: u32 = 0x7F80_0000;

/// The canonical quiet NaN bit pattern.
pub const QNAN_BITS: u32 = 0x7FC0_0000;

/// True of the bit patterns that encode a NaN: maximal exponent and a
/// non-zero mantissa.
pub open spec fn is_nan_bits(b: u32) -> bool {
    b & 0x7F80_0000 == 0x7F80_0000 && b & 0x007F_FFFF != 0
}

/// True of the two bit patterns that encode an infinity.
pub open spec fn is_inf_bits(b: u32) -> bool {
    b & 0x7FFF_FFFF == 0x7F80_0000
}

/// True of the two bit patterns that encode a zero.
pub open spec fn is_zero_bits(b: u32) -> bool {
    b == ZERO_BITS || b == SIGN_MASK
}

/// The canonical form of a bit pattern: every NaN collapsed to the one quiet
/// NaN, every other value kept. Two patterns with equal canonical forms are
/// the same value up to the NaN payload, which the platform leaves open.
pub open spec fn canon(b: u32) -> u32 {
    if is_nan_bits(b) {
        QNAN_BITS
    } else {
        b
    }
}

/// Canonicalization keeps NaN-ness and is idempotent.
pub broadcast proof fn lemma_canon(b: u32)
    ensures
        #![trigger canon(b)]
        is_nan_bits(canon(b)) == is_nan_bits(b),
        canon(canon(b)) == canon(b),
{
    assert(0x7FC0_0000u32 & 0x7F80_0000 == 0x7F80_0000) by (bit_vector);
    assert(0x7FC0_0000u32 & 0x007F_FFFF != 0) by (bit_vector);
}

/// A NaN operand `a` forces a NaN result `r`.
pub open spec fn propagates(a: u32, r: u32) -> bool {
    is_nan_bits(a) ==> is_nan_bits(r)
}

/// A NaN in either operand forces a NaN result.
pub open spec fn propagates2(a: u32, b: u32, r: u32) -> bool {
    propagates(a, r) && propagates(b, r)
}

/// A bit pattern that the exact identities of this crate keep unharmed:
/// finite (no NaN, no infinity) and not negative zero. An infinity meets a
/// zero factor as `0 * inf == NaN`, and a negative zero meets a zero term as
/// `-0.0 + +0.0 == +0.0`.
pub open spec fn is_clean(x: u32) -> bool {
    !is_nan_bits(x) && !is_inf_bits(x) && x != SIGN_MASK
}

/// The canonical bits of the IEEE 754 sum of the two canonical operand
/// patterns. Determined by the operands: only a NaN's payload is open, and
/// `canon` removes it on both sides.
pub uninterp spec fn add_bits(a: u32, b: u32) -> u32;

/// The canonical sum of two raw bit patterns.
pub open spec fn sadd(a: u32, b: u32) -> u32 {
    add_bits(canon(a), canon(b))
}

/// Relies on `f32` addition: IEEE 754 round-to-nearest, which determines the
/// sum — and in particular whether it is a NaN — from the operand bits
/// alone, up to the NaN payload. Addition is commutative (the exact sum does
/// not depend on the operand order, and rounding it is deterministic), so
/// the result is the model of either order. A sum of a value and a zero is
/// that value exactly, the one exception being `-0.0 + +0.0 == +0.0`; and a
/// finite value plus its own negation is an exact zero, which IEEE 754
/// rounds to `+0.0` under round-to-nearest.
#[verifier::external_body]
pub(crate) fn fadd(a: u32, b: u32) -> (r: u32)
    ensures
        canon(r) == add_bits(canon(a), canon(b)),
        canon(r) == add_bits(canon(b), canon(a)),
        propagates2(a, b, r),
        b == SIGN_MASK && !is_nan_bits(a) ==> r == a,
        b == ZERO_BITS && !is_nan_bits(a) && a != SIGN_MASK ==> r == a,
        a == SIGN_MASK && !is_nan_bits(b) ==> r == b,
        a == ZERO_BITS && !is_nan_bits(b) && b != SIGN_MASK ==> r == b,
        b == neg_bits(a) && !is_nan_bits(a) && !is_inf_bits(a) ==> r == ZERO_BITS,
{
    (Single::from_bits(a) + Single::from_bits(b)).to_bits()
}

/// The canonical bits of the IEEE 754 difference of the two canonical
/// operand patterns.
pub uninterp spec fn sub_bits(a: u32, b: u32) -> u32;

/// The canonical difference of two raw bit patterns.
pub open spec fn ssub(a: u32, b: u32) -> u32 {
    sub_bits(canon(a), canon(b))
}

/// Relies on `f32` subtraction: IEEE 754 round-to-nearest, which determines
/// the difference — and whether it is a NaN — from the operand bits alone,
/// up to the NaN payload. Subtracting either zero is exact (a zero minus
/// negative zero is the `-0.0 + +0.0 == +0.0` exception), and the difference
/// of a finite value with itself is an exact zero, which IEEE 754 gives the
/// sign `+0` under round-to-nearest.
#[verifier::external_body]
pub(crate) fn fsub(a: u32, b: u32) -> (r: u32)
    ensures
        canon(r) == sub_bits(canon(a), canon(b)),
        propagates2(a, b, r),
        b == ZERO_BITS && !is_nan_bits(a) ==> r == a,
        b == SIGN_MASK && !is_nan_bits(a) && a != SIGN_MASK ==> r == a,
        a == b && !is_nan_bits(a) && !is_inf_bits(a) ==> r == ZERO_BITS,
{
    (Single::from_bits(a) - Single::from_bits(b)).to_bits()
}

/// The canonical bits of the IEEE 754 product of the two canonical operand
/// patterns.
pub uninterp spec fn mul_bits(a: u32, b: u32) -> u32;

/// The canonical product of two raw bit patterns.
pub open spec fn smul(a: u32, b: u32) -> u32 {
    mul_bits(canon(a), canon(b))
}

/// Relies on `f32` multiplication: IEEE 754 round-to-nearest, which
/// determines the product — and whether it is a NaN — from the operand bits
/// alone, up to the NaN payload. Multiplication is commutative, so the
/// result is the model of either order. A product with one is the other
/// factor exactly (the exact product rounds to itself); a product of a zero
/// and a finite value is the zero whose sign bit is the exclusive-or of the
/// operands' sign bits.
#[verifier::external_body]
pub(crate) fn fmul(a: u32, b: u32) -> (r: u32)
    ensures
        canon(r) == mul_bits(canon(a), canon(b)),
        canon(r) == mul_bits(canon(b), canon(a)),
        propagates2(a, b, r),
        a == ONE_BITS && !is_nan_bits(b) ==> r == b,
        b == ONE_BITS && !is_nan_bits(a) ==> r == a,
        is_zero_bits(a) && !is_nan_bits(b) && !is_inf_bits(b) ==> is_zero_bits(r) && r == ((a ^ b)
            & SIGN_MASK),
        is_zero_bits(b) && !is_nan_bits(a) && !is_inf_bits(a) ==> is_zero_bits(r) && r == ((a ^ b)
            & SIGN_MASK),
{
    (Single::from_bits(a) * Single::from_bits(b)).to_bits()
}

/// The canonical bits of the IEEE 754 quotient of the two canonical operand
/// patterns.
pub uninterp spec fn div_bits(a: u32, b: u32) -> u32;

/// The canonical quotient of two raw bit patterns.
pub open spec fn sdiv(a: u32, b: u32) -> u32 {
    div_bits(canon(a), canon(b))
}

/// Relies on `f32` division: IEEE 754 round-to-nearest, which determines the
/// quotient — and whether it is a NaN — from the operand bits alone, up to
/// the NaN payload. Dividing by one is exact. A zero divisor never faults: a
/// non-zero dividend gives the infinity whose sign bit is the exclusive-or
/// of the operands' sign bits, and a zero over a zero gives a NaN.
#[verifier::external_body]
pub(crate) fn fdiv(a: u32, b: u32) -> (r: u32)
    ensures
        canon(r) == div_bits(canon(a), canon(b)),
        propagates2(a, b, r),
        b == ONE_BITS && !is_nan_bits(a) ==> r == a,
        is_zero_bits(b) && !is_nan_bits(a) && !is_zero_bits(a) ==> r == (((a ^ b) & SIGN_MASK)
            | INF_BITS),
        is_zero_bits(a) && is_zero_bits(b) ==> is_nan_bits(r),
{
    (Single::from_bits(a) / Single::from_bits(b)).to_bits()
}

/// The canonical bits of the IEEE 754 square root of the canonical operand
/// pattern (a negative operand other than `-0.0` gives a NaN).
pub uninterp spec fn sqrt_bits(a: u32) -> u32;

/// The canonical square root of a raw bit pattern.
pub open spec fn ssqrt(a: u32) -> u32 {
    sqrt_bits(canon(a))
}

/// Relies on `f32::sqrt`: the IEEE 754 `squareRoot` operation, correctly
/// rounded, so the root — and whether it is a NaN — is determined by the
/// operand bits alone, up to the NaN payload. The square root of either zero
/// is that zero.
#[verifier::external_body]
pub(crate) fn fsqrt(a: u32) -> (r: u32)
    ensures
        canon(r) == sqrt_bits(canon(a)),
        propagates(a, r),
        a == ZERO_BITS ==> r == ZERO_BITS,
        a == SIGN_MASK ==> r == SIGN_MASK,
{
    Single::from_bits(a).sqrt().to_bits()
}

/// Relies on `f32::sin`. Its precision is platform-dependent and documented
/// as non-deterministic, so nothing is promised of the result; callers state
/// what holds of every returned value.
#[verifier::external_body]
pub(crate) fn fsin(a: u32) -> u32 {
    Single::from_bits(a).sin().to_bits()
}

/// Relies on `f32::cos`. Its precision is platform-dependent and documented
/// as non-deterministic, so nothing is promised of the result; callers state
/// what holds of every returned value.
#[verifier::external_body]
pub(crate) fn fcos(a: u32) -> u32 {
    Single::from_bits(a).cos().to_bits()
}

/// Relies on `f32::tan`. Its precision is platform-dependent and documented
/// as non-deterministic, so nothing is promised of the result; callers state
/// what holds of every returned value.
#[verifier::external_body]
pub(crate) fn ftan(a: u32) -> u32 {
    Single::from_bits(a).tan().to_bits()
}

/// The negation of an IEEE 754 value: the sign bit flipped, every other bit
/// kept, a NaN staying a NaN.
pub open spec fn neg_bits(b: u32) -> u32 {
    b ^ SIGN_MASK
}

/// The canonical negation of a raw bit pattern.
pub open spec fn sneg(a: u32) -> u32 {
    canon(neg_bits(canon(a)))
}

/// Negation only changes the sign bit: it keeps NaN-ness and undoes itself.
pub proof fn lemma_neg_bits(b: u32)
    ensures
        is_nan_bits(neg_bits(b)) == is_nan_bits(b),
        neg_bits(neg_bits(b)) == b,
{
    assert((b ^ 0x8000_0000u32) & 0x7F80_0000 == b & 0x7F80_0000) by (bit_vector);
    assert((b ^ 0x8000_0000u32) & 0x007F_FFFF == b & 0x007F_FFFF) by (bit_vector);
    assert((b ^ 0x8000_0000u32) ^ 0x8000_0000 == b) by (bit_vector);
}

/// The constant bit patterns of this crate are ordinary values: the two
/// zeros, one, two, and minus one are not NaNs and keep their bits under
/// canonicalization; the zeros and one and two are finite.
pub proof fn lemma_const_bits()
    ensures
        !is_nan_bits(ZERO_BITS) && !is_inf_bits(ZERO_BITS),
        !is_nan_bits(SIGN_MASK) && !is_inf_bits(SIGN_MASK),
        !is_nan_bits(ONE_BITS) && !is_inf_bits(ONE_BITS),
        !is_nan_bits(TWO_BITS) && !is_inf_bits(TWO_BITS),
        !is_nan_bits(neg_bits(ONE_BITS)),
        canon(ZERO_BITS) == ZERO_BITS,
        canon(SIGN_MASK) == SIGN_MASK,
        canon(ONE_BITS) == ONE_BITS,
        canon(TWO_BITS) == TWO_BITS,
        canon(neg_bits(ONE_BITS)) == neg_bits(ONE_BITS),
{
    assert(0x0000_0000u32 & 0x7F80_0000u32 != 0x7F80_0000u32) by (bit_vector);
    assert(0x8000_0000u32 & 0x7F80_0000u32 != 0x7F80_0000u32) by (bit_vector);
    assert(0x3F80_0000u32 & 0x7F80_0000u32 != 0x7F80_0000u32) by (bit_vector);
    assert(0x4000_0000u32 & 0x7F80_0000u32 != 0x7F80_0000u32) by (bit_vector);
    assert(0x0000_0000u32 & 0x7FFF_FFFFu32 != 0x7F80_0000u32) by (bit_vector);
    assert(0x8000_0000u32 & 0x7FFF_FFFFu32 != 0x7F80_0000u32) by (bit_vector);
    assert(0x3F80_0000u32 & 0x7FFF_FFFFu32 != 0x7F80_0000u32) by (bit_vector);
    assert(0x4000_0000u32 & 0x7FFF_FFFFu32 != 0x7F80_0000u32) by (bit_vector);
    assert((0x3F80_0000u32 ^ 0x8000_0000u32) & 0x7F80_0000u32 != 0x7F80_0000u32) by (bit_vector);
}

/// Canonicalization commutes with negation up to the NaN payload: flipping
/// the sign of a NaN gives another NaN, and both collapse to the quiet NaN.
pub proof fn lemma_canon_neg(b: u32)
    ensures
        canon(neg_bits(b)) == sneg(b),
{
    lemma_neg_bits(b);
    lemma_neg_bits(QNAN_BITS);
    lemma_canon(b);
    lemma_canon(neg_bits(b));
    lemma_canon(neg_bits(canon(b)));
    assert(0x7FC0_0000u32 & 0x7F80_0000 == 0x7F80_0000) by (bit_vector);
    assert(0x7FC0_0000u32 & 0x007F_FFFF != 0) by (bit_vector);
}

/// The executable negation: one exclusive-or on the sign bit, per IEEE 754's
/// `negate`, which is a sign-bit operation and not an arithmetic one.
pub fn fneg(a: u32) -> (r: u32)
    ensures
        r == neg_bits(a),
        canon(r) == sneg(a),
        is_nan_bits(r) == is_nan_bits(a),
{
    proof {
        lemma_neg_bits(a);
        lemma_canon_neg(a);
    }
    a ^ SIGN_MASK
}

} // verus!
