//! A 3-component single-precision vector, each component carried as its IEEE
//! 754 bit pattern.

use crate::scalar::{
    canon, fadd, fdiv, fmul, fneg, fsqrt, fsub, is_inf_bits, is_nan_bits, is_zero_bits,
    lemma_const_bits, neg_bits, propagates, propagates2, sadd, sdiv, smul, ssqrt, ssub, ONE_BITS,
    SIGN_MASK, ZERO_BITS,
};
use vstd::prelude::*;

verus! {

broadcast use crate::scalar::lemma_canon;

/// A 3-component vector. Each field is the bit pattern of an IEEE 754
/// single-precision value. A plain value type: copied on use, no identity
/// beyond its components, NaN and infinity patterns as legal as any other.
#[derive(Clone, Copy, Debug, PartialEq)]
pub struct V3 {
    pub x: u32,
    pub y: u32,
    pub z: u32,
}

/// Componentwise: the computed vector equals the modelled one up to NaN
/// payloads — the canonical form of each computed component is the modelled
/// (already canonical) component.
pub open spec fn v3_canon_eq(r: V3, model: V3) -> bool {
    canon(r.x) == model.x && canon(r.y) == model.y && canon(r.z) == model.z
}

/// Componentwise: a NaN in either operand's component forces a NaN in the
/// result's component.
pub open spec fn v3_propagates2(a: V3, b: V3, r: V3) -> bool {
    propagates2(a.x, b.x, r.x) && propagates2(a.y, b.y, r.y) && propagates2(a.z, b.z, r.z)
}

/// A NaN in the scalar operand forces a NaN in every component of the result.
pub open spec fn v3_propagates_scalar(s: u32, r: V3) -> bool {
    propagates(s, r.x) && propagates(s, r.y) && propagates(s, r.z)
}

/// Every component is finite: not a NaN and not an infinity.
pub open spec fn v3_finite(a: V3) -> bool {
    !is_nan_bits(a.x) && !is_inf_bits(a.x) && !is_nan_bits(a.y) && !is_inf_bits(a.y)
        && !is_nan_bits(a.z) && !is_inf_bits(a.z)
}

/// Every component is a zero (of either sign).
pub open spec fn v3_zero(a: V3) -> bool {
    is_zero_bits(a.x) && is_zero_bits(a.y) && is_zero_bits(a.z)
}

/// The interpolation endpoint `keep` comes out of `lerp` exactly: its
/// components are not NaNs and not negative zeros, and the components of
/// `other` are finite, so the zero products and the sums that evaluate the
/// endpoint are all exact.
pub open spec fn endpoint_exact(keep: V3, other: V3) -> bool {
    &&& !is_nan_bits(keep.x) && keep.x != SIGN_MASK
    &&& !is_nan_bits(keep.y) && keep.y != SIGN_MASK
    &&& !is_nan_bits(keep.z) && keep.z != SIGN_MASK
    &&& !is_nan_bits(other.x) && !is_inf_bits(other.x)
    &&& !is_nan_bits(other.y) && !is_inf_bits(other.y)
    &&& !is_nan_bits(other.z) && !is_inf_bits(other.z)
}

/// A NaN anywhere in `a` forces a NaN in every component of the result: the
/// operation mixes all three components.
pub open spec fn v3_mixes(a: V3, r: V3) -> bool {
    is_nan_bits(a.x) || is_nan_bits(a.y) || is_nan_bits(a.z) ==> is_nan_bits(r.x) && is_nan_bits(
        r.y,
    ) && is_nan_bits(r.z)
}

/// The componentwise sum, canonical.
pub open spec fn add_spec(a: V3, b: V3) -> V3 {
    V3 { x: sadd(a.x, b.x), y: sadd(a.y, b.y), z: sadd(a.z, b.z) }
}

/// The componentwise difference, canonical.
pub open spec fn sub_spec(a: V3, b: V3) -> V3 {
    V3 { x: ssub(a.x, b.x), y: ssub(a.y, b.y), z: ssub(a.z, b.z) }
}

/// Each component multiplied by the scalar `s`, canonical.
pub open spec fn scale_spec(a: V3, s: u32) -> V3 {
    V3 { x: smul(a.x, s), y: smul(a.y, s), z: smul(a.z, s) }
}

/// Each component divided by the scalar `s`, canonical.
pub open spec fn div_spec(a: V3, s: u32) -> V3 {
    V3 { x: sdiv(a.x, s), y: sdiv(a.y, s), z: sdiv(a.z, s) }
}

/// Each component's sign flipped, exactly (payloads kept).
pub open spec fn neg_spec(a: V3) -> V3 {
    V3 { x: neg_bits(a.x), y: neg_bits(a.y), z: neg_bits(a.z) }
}

/// The dot product `a.x*b.x + a.y*b.y + a.z*b.z`, the two sums taken left to
/// right as the implementation takes them, canonical.
pub open spec fn dot_spec(a: V3, b: V3) -> u32 {
    sadd(sadd(smul(a.x, b.x), smul(a.y, b.y)), smul(a.z, b.z))
}

/// A NaN anywhere in either operand forces a NaN in the scalar result.
pub open spec fn dot_propagates(a: V3, b: V3, r: u32) -> bool {
    is_nan_bits(a.x) || is_nan_bits(a.y) || is_nan_bits(a.z) || is_nan_bits(b.x) || is_nan_bits(
        b.y,
    ) || is_nan_bits(b.z) ==> is_nan_bits(r)
}

/// The standard 3D cross product
/// `(a.y*b.z - a.z*b.y, a.z*b.x - a.x*b.z, a.x*b.y - a.y*b.x)`, canonical.
pub open spec fn cross_spec(a: V3, b: V3) -> V3 {
    V3 {
        x: ssub(smul(a.y, b.z), smul(a.z, b.y)),
        y: ssub(smul(a.z, b.x), smul(a.x, b.z)),
        z: ssub(smul(a.x, b.y), smul(a.y, b.x)),
    }
}

/// Each cross-product component is a NaN when one of the four components it
/// is computed from is.
pub open spec fn cross_propagates(a: V3, b: V3, r: V3) -> bool {
    &&& is_nan_bits(a.y) || is_nan_bits(a.z) || is_nan_bits(b.y) || is_nan_bits(b.z)
        ==> is_nan_bits(r.x)
    &&& is_nan_bits(a.z) || is_nan_bits(a.x) || is_nan_bits(b.z) || is_nan_bits(b.x)
        ==> is_nan_bits(r.y)
    &&& is_nan_bits(a.x) || is_nan_bits(a.y) || is_nan_bits(b.x) || is_nan_bits(b.y)
        ==> is_nan_bits(r.z)
}

/// The Euclidean norm `sqrt(x*x + y*y + z*z)`, canonical.
pub open spec fn length_spec(a: V3) -> u32 {
    ssqrt(dot_spec(a, a))
}

/// Each component divided by the Euclidean norm, canonical. For a zero
/// vector the norm is zero and the quotients are IEEE NaNs, as the division
/// leaves them.
pub open spec fn normalized_spec(a: V3) -> V3 {
    div_spec(a, length_spec(a))
}

/// `a*(1-t) + b*t`, canonical: no clamping, a `t` outside `[0, 1]`
/// extrapolates.
pub open spec fn lerp_spec(a: V3, b: V3, t: u32) -> V3 {
    add_spec(scale_spec(a, ssub(ONE_BITS, t)), scale_spec(b, t))
}

impl V3 {
    /// Constructs from three component bit patterns. No constraints, no
    /// failure.
    pub fn new(x: u32, y: u32, z: u32) -> (r: V3)
        ensures
            r.x == x,
            r.y == y,
            r.z == z,
    {
        V3 { x, y, z }
    }

    /// Constructs `(value, value, value)`.
    pub fn with_value(value: u32) -> (r: V3)
        ensures
            r.x == value,
            r.y == value,
            r.z == value,
    {
        V3::new(value, value, value)
    }

    /// The Euclidean norm. Never fails; the result is pinned up to the NaN
    /// payload, and is a NaN exactly when the modelled computation is.
    pub fn length(&self) -> (r: u32)
        ensures
            canon(r) == length_spec(*self),
            is_nan_bits(r) == is_nan_bits(length_spec(*self)),
            is_nan_bits(self.x) || is_nan_bits(self.y) || is_nan_bits(self.z) ==> is_nan_bits(r),
            v3_zero(*self) ==> is_zero_bits(r),
    {
        proof {
            lemma_const_bits();
        }
        let xx = fmul(self.x, self.x);
        let yy = fmul(self.y, self.y);
        let zz = fmul(self.z, self.z);
        fsqrt(fadd(fadd(xx, yy), zz))
    }

    /// Scales the receiver in place to unit length, dividing each component
    /// by `length()`, and returns the new value. A zero-length receiver
    /// comes out with a NaN in every component (each is `0/0`); that is
    /// accepted float semantics, not an error.
    pub fn normalize(&mut self) -> (r: V3)
        ensures
            v3_canon_eq(*final(self), normalized_spec(*old(self))),
            v3_mixes(*old(self), *final(self)),
            v3_zero(*old(self)) ==> is_nan_bits(final(self).x) && is_nan_bits(final(self).y)
                && is_nan_bits(final(self).z),
            r == *final(self),
    {
        proof {
            lemma_const_bits();
        }
        let length = self.length();
        self.x = fdiv(self.x, length);
        self.y = fdiv(self.y, length);
        self.z = fdiv(self.z, length);
        *self
    }

    /// The same computation as `normalize`, returning a new value and leaving
    /// the receiver unchanged.
    pub fn get_normalized(&self) -> (r: V3)
        ensures
            v3_canon_eq(r, normalized_spec(*self)),
            v3_mixes(*self, r),
            v3_zero(*self) ==> is_nan_bits(r.x) && is_nan_bits(r.y) && is_nan_bits(r.z),
    {
        proof {
            lemma_const_bits();
        }
        let length = self.length();
        V3::new(fdiv(self.x, length), fdiv(self.y, length), fdiv(self.z, length))
    }

    /// Componentwise addition. The sum equals the model of either operand
    /// order up to NaN payloads: IEEE 754 addition is commutative. Adding a
    /// finite vector's negation gives the zero vector exactly.
    pub fn add(self, rhs: V3) -> (r: V3)
        ensures
            v3_canon_eq(r, add_spec(self, rhs)),
            v3_canon_eq(r, add_spec(rhs, self)),
            v3_propagates2(self, rhs, r),
            rhs == neg_spec(self) && v3_finite(self) ==> r.x == ZERO_BITS && r.y == ZERO_BITS
                && r.z == ZERO_BITS,
    {
        V3::new(fadd(self.x, rhs.x), fadd(self.y, rhs.y), fadd(self.z, rhs.z))
    }

    /// Componentwise addition, in place.
    pub fn add_assign(&mut self, rhs: V3)
        ensures
            v3_canon_eq(*final(self), add_spec(*old(self), rhs)),
            v3_canon_eq(*final(self), add_spec(rhs, *old(self))),
            v3_propagates2(*old(self), rhs, *final(self)),
    {
        *self = V3::new(fadd(self.x, rhs.x), fadd(self.y, rhs.y), fadd(self.z, rhs.z));
    }

    /// Componentwise subtraction. Subtracting a finite vector from itself
    /// gives the zero vector exactly.
    pub fn sub(self, rhs: V3) -> (r: V3)
        ensures
            v3_canon_eq(r, sub_spec(self, rhs)),
            v3_propagates2(self, rhs, r),
            rhs == self && v3_finite(self) ==> r.x == ZERO_BITS && r.y == ZERO_BITS && r.z
                == ZERO_BITS,
    {
        V3::new(fsub(self.x, rhs.x), fsub(self.y, rhs.y), fsub(self.z, rhs.z))
    }

    /// Componentwise subtraction, in place. Subtracting a finite vector from
    /// itself gives the zero vector exactly.
    pub fn sub_assign(&mut self, rhs: V3)
        ensures
            v3_canon_eq(*final(self), sub_spec(*old(self), rhs)),
            v3_propagates2(*old(self), rhs, *final(self)),
            rhs == *old(self) && v3_finite(*old(self)) ==> final(self).x == ZERO_BITS
                && final(self).y == ZERO_BITS && final(self).z == ZERO_BITS,
    {
        *self = V3::new(fsub(self.x, rhs.x), fsub(self.y, rhs.y), fsub(self.z, rhs.z));
    }

    /// Multiplication by a scalar. Multiplying by one gives the vector back
    /// exactly, NaN components aside.
    pub fn mul(self, rhs: u32) -> (r: V3)
        ensures
            v3_canon_eq(r, scale_spec(self, rhs)),
            v3_propagates_scalar(rhs, r),
            propagates(self.x, r.x) && propagates(self.y, r.y) && propagates(self.z, r.z),
            rhs == ONE_BITS && !is_nan_bits(self.x) && !is_nan_bits(self.y) && !is_nan_bits(
                self.z,
            ) ==> r == self,
    {
        V3::new(fmul(self.x, rhs), fmul(self.y, rhs), fmul(self.z, rhs))
    }

    /// Multiplication by a scalar, in place.
    pub fn mul_assign(&mut self, rhs: u32)
        ensures
            v3_canon_eq(*final(self), scale_spec(*old(self), rhs)),
            v3_propagates_scalar(rhs, *final(self)),
    {
        *self = V3::new(fmul(self.x, rhs), fmul(self.y, rhs), fmul(self.z, rhs));
    }

    /// Division by a scalar. A zero divisor gives IEEE infinities or NaNs,
    /// not a fault. Dividing by one gives the vector back exactly, NaN
    /// components aside.
    pub fn div(self, rhs: u32) -> (r: V3)
        ensures
            v3_canon_eq(r, div_spec(self, rhs)),
            v3_propagates_scalar(rhs, r),
            propagates(self.x, r.x) && propagates(self.y, r.y) && propagates(self.z, r.z),
            rhs == ONE_BITS && !is_nan_bits(self.x) && !is_nan_bits(self.y) && !is_nan_bits(
                self.z,
            ) ==> r == self,
    {
        V3::new(fdiv(self.x, rhs), fdiv(self.y, rhs), fdiv(self.z, rhs))
    }

    /// Division by a scalar, in place.
    pub fn div_assign(&mut self, rhs: u32)
        ensures
            v3_canon_eq(*final(self), div_spec(*old(self), rhs)),
            v3_propagates_scalar(rhs, *final(self)),
    {
        *self = V3::new(fdiv(self.x, rhs), fdiv(self.y, rhs), fdiv(self.z, rhs));
    }

    /// Unary negation: each component's sign bit flipped, exactly.
    pub fn neg(self) -> (r: V3)
        ensures
            r == neg_spec(self),
    {
        V3::new(fneg(self.x), fneg(self.y), fneg(self.z))
    }

    /// The dot product, a scalar. This is the vector-vector multiplication of
    /// this library; there is no componentwise vector product. The result
    /// equals the model of either operand order up to the NaN payload: the
    /// dot product is symmetric, since IEEE 754 multiplication is commutative
    /// and the sums are taken in the same order either way.
    pub fn dot(self, rhs: V3) -> (r: u32)
        ensures
            canon(r) == dot_spec(self, rhs),
            canon(r) == dot_spec(rhs, self),
            is_nan_bits(r) == is_nan_bits(dot_spec(self, rhs)),
            dot_propagates(self, rhs, r),
    {
        let xx = fmul(self.x, rhs.x);
        let yy = fmul(self.y, rhs.y);
        let zz = fmul(self.z, rhs.z);
        fadd(fadd(xx, yy), zz)
    }

    /// The standard 3D cross product. Crossing the first two unit axes
    /// gives the third exactly: every product there is by a zero or a one,
    /// so no rounding is involved.
    pub fn cross(self, rhs: V3) -> (r: V3)
        ensures
            v3_canon_eq(r, cross_spec(self, rhs)),
            cross_propagates(self, rhs, r),
            self == (V3 { x: ONE_BITS, y: ZERO_BITS, z: ZERO_BITS }) && rhs == (V3 {
                x: ZERO_BITS,
                y: ONE_BITS,
                z: ZERO_BITS,
            }) ==> r == (V3 { x: ZERO_BITS, y: ZERO_BITS, z: ONE_BITS }),
    {
        let r = V3::new(
            fsub(fmul(self.y, rhs.z), fmul(self.z, rhs.y)),
            fsub(fmul(self.z, rhs.x), fmul(self.x, rhs.z)),
            fsub(fmul(self.x, rhs.y), fmul(self.y, rhs.x)),
        );
        proof {
            lemma_const_bits();
            assert((0x0000_0000u32 ^ 0x0000_0000u32) & 0x8000_0000u32 == 0u32) by (bit_vector);
        }
        r
    }

    /// The cross product, in place.
    pub fn cross_assign(&mut self, rhs: V3)
        ensures
            v3_canon_eq(*final(self), cross_spec(*old(self), rhs)),
            cross_propagates(*old(self), rhs, *final(self)),
    {
        *self = V3::new(
            fsub(fmul(self.y, rhs.z), fmul(self.z, rhs.y)),
            fsub(fmul(self.z, rhs.x), fmul(self.x, rhs.z)),
            fsub(fmul(self.x, rhs.y), fmul(self.y, rhs.x)),
        );
    }
}

/// The modelled dot product reads only canonical forms of its operands'
/// components, so replacing an operand by its canonical image (`ca` with
/// `v3_canon_eq(a, ca)`) leaves the model unchanged, on either side.
pub proof fn lemma_dot_stable(a: V3, ca: V3, b: V3)
    requires
        v3_canon_eq(a, ca),
    ensures
        dot_spec(a, b) == dot_spec(ca, b),
        dot_spec(b, a) == dot_spec(b, ca),
{
}

/// The modelled cross product reads only canonical forms of its operands'
/// components, so replacing an operand by its canonical image leaves the
/// model unchanged, on either side.
pub proof fn lemma_cross_stable(a: V3, ca: V3, b: V3)
    requires
        v3_canon_eq(a, ca),
    ensures
        cross_spec(a, b) == cross_spec(ca, b),
        cross_spec(b, a) == cross_spec(b, ca),
{
}

/// The modelled normalization reads only canonical forms of its operand's
/// components, so replacing the operand by its canonical image leaves the
/// model unchanged.
pub proof fn lemma_normalized_stable(a: V3, ca: V3)
    requires
        v3_canon_eq(a, ca),
    ensures
        normalized_spec(a) == normalized_spec(ca),
{
}

impl Default for V3 {
    /// The zero vector.
    fn default() -> (r: V3)
        ensures
            r.x == ZERO_BITS,
            r.y == ZERO_BITS,
            r.z == ZERO_BITS,
    {
        V3::new(ZERO_BITS, ZERO_BITS, ZERO_BITS)
    }
}

/// `a*(1-t) + b*t`: linear interpolation without clamping, so a `t` outside
/// `[0, 1]` extrapolates. At `t == 0` the result is `a` exactly and at
/// `t == 1` it is `b` exactly, for operands whose components survive the
/// zero products and sums unharmed (`endpoint_exact`).
pub fn lerp(a: V3, b: V3, t: u32) -> (r: V3)
    ensures
        v3_canon_eq(r, lerp_spec(a, b, t)),
        v3_propagates_scalar(t, r),
        t == ZERO_BITS && endpoint_exact(a, b) ==> r == a,
        t == ONE_BITS && endpoint_exact(b, a) ==> r == b,
{
    let s = fsub(ONE_BITS, t);
    let rx = fadd(fmul(a.x, s), fmul(b.x, t));
    let ry = fadd(fmul(a.y, s), fmul(b.y, t));
    let rz = fadd(fmul(a.z, s), fmul(b.z, t));
    proof {
        lemma_const_bits();
    }
    V3::new(rx, ry, rz)
}

} // verus!
