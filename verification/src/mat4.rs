//! A 4x4 single-precision matrix, stored as four columns of four entries,
//! each entry carried as its IEEE 754 bit pattern.

use crate::scalar::{
    canon, fadd, fcos, fdiv, fmul, fneg, fsin, fsub, ftan, is_clean, is_nan_bits,
    lemma_const_bits, neg_bits, propagates2, sadd, sdiv, smul, sneg, ssub, ONE_BITS, TWO_BITS,
    ZERO_BITS,
};
use crate::vec3::{
    cross_spec, dot_spec, lemma_cross_stable, lemma_dot_stable, lemma_normalized_stable,
    normalized_spec, sub_spec, v3_canon_eq, V3,
};
use vstd::prelude::*;

verus! {

broadcast use vstd::array::group_array_axioms, crate::scalar::lemma_canon;

/// A 4x4 matrix in column-major order: `m[0]` is the first column, and
/// `m[j][i]` is the entry in column `j`, row `i`. Each entry is the bit
/// pattern of an IEEE 754 single-precision value. A plain value type with no
/// structural invariant: it need not be invertible or orthogonal.
#[derive(Clone, Copy, Debug, PartialEq)]
pub struct M44 {
    pub m: [[u32; 4]; 4],
}

/// The transposed matrix: entry `(j, i)` moved to `(i, j)`.
pub open spec fn transpose_spec(a: M44) -> M44 {
    M44 {
        m: [
            [a.m[0][0], a.m[1][0], a.m[2][0], a.m[3][0]],
            [a.m[0][1], a.m[1][1], a.m[2][1], a.m[3][1]],
            [a.m[0][2], a.m[1][2], a.m[2][2], a.m[3][2]],
            [a.m[0][3], a.m[1][3], a.m[2][3], a.m[3][3]],
        ],
    }
}

/// The multiplicative identity: ones on the diagonal, zeros elsewhere.
pub open spec fn identity_spec() -> M44 {
    M44 {
        m: [
            [ONE_BITS, ZERO_BITS, ZERO_BITS, ZERO_BITS],
            [ZERO_BITS, ONE_BITS, ZERO_BITS, ZERO_BITS],
            [ZERO_BITS, ZERO_BITS, ONE_BITS, ZERO_BITS],
            [ZERO_BITS, ZERO_BITS, ZERO_BITS, ONE_BITS],
        ],
    }
}

/// Ones on the diagonal, zeros elsewhere, entry by entry.
pub open spec fn is_identity(a: M44) -> bool {
    forall|j: int, i: int|
        0 <= j < 4 && 0 <= i < 4 ==> a.m[j][i] == (if i == j {
            ONE_BITS
        } else {
            ZERO_BITS
        })
}

/// The line `a.m[j]` — the left factor's `j`-th row under the product's
/// row-times-column index formula — holds the `j`-th unit axis: one in
/// position `j`, zeros elsewhere.
pub open spec fn row_is_axis(a: M44, j: int) -> bool {
    forall|k: int|
        0 <= k < 4 ==> a.m[j][k] == (if k == j {
            ONE_BITS
        } else {
            ZERO_BITS
        })
}

/// The line `b.m[0][i] .. b.m[3][i]` — the right factor's `i`-th column
/// under the product's row-times-column index formula — holds the `i`-th
/// unit axis: one in position `i`, zeros elsewhere.
pub open spec fn col_is_axis(b: M44, i: int) -> bool {
    forall|k: int|
        0 <= k < 4 ==> b.m[k][i] == (if k == i {
            ONE_BITS
        } else {
            ZERO_BITS
        })
}

/// Every entry of the line `a.m[j]` is clean in the sense of `is_clean`.
pub open spec fn row_clean(a: M44, j: int) -> bool {
    forall|k: int| 0 <= k < 4 ==> is_clean(#[trigger] a.m[j][k])
}

/// Every entry of the line `b.m[0][i] .. b.m[3][i]` is clean in the sense
/// of `is_clean`.
pub open spec fn col_clean(b: M44, i: int) -> bool {
    forall|k: int| 0 <= k < 4 ==> is_clean(#[trigger] b.m[k][i])
}

/// Every entry of the matrix is clean in the sense of `is_clean`: finite and
/// not negative zero, so that multiplication by the identity keeps it
/// exactly.
pub open spec fn m44_clean(a: M44) -> bool {
    forall|j: int, i: int| 0 <= j < 4 && 0 <= i < 4 ==> is_clean(#[trigger] a.m[j][i])
}

/// Entry `(j, i)` of the matrix product: the sum of the four products
/// `a.m[j][k] * b.m[k][i]`, the sums taken left to right as the
/// implementation takes them, canonical.
pub open spec fn mul_entry_spec(a: M44, b: M44, j: int, i: int) -> u32 {
    sadd(
        sadd(sadd(smul(a.m[j][0], b.m[0][i]), smul(a.m[j][1], b.m[1][i])), smul(a.m[j][2], b.m[2][i])),
        smul(a.m[j][3], b.m[3][i]),
    )
}

/// Every entry of `r` equals the corresponding entry of the product `a * b`
/// up to the NaN payload: its canonical form is the modelled entry.
pub open spec fn product_canon_eq(r: M44, a: M44, b: M44) -> bool {
    forall|j: int, i: int|
        0 <= j < 4 && 0 <= i < 4 ==> canon(#[trigger] r.m[j][i]) == mul_entry_spec(a, b, j, i)
}

/// Every entry of `r` equals the corresponding entry of the modelled matrix
/// up to the NaN payload: its canonical form is the modelled entry.
pub open spec fn m44_canon_eq(r: M44, model: M44) -> bool {
    forall|j: int, i: int|
        0 <= j < 4 && 0 <= i < 4 ==> canon(#[trigger] r.m[j][i]) == model.m[j][i]
}

/// One entry of the matrix product. When the entry's row of `a` (or column
/// of `b`) is a unit axis and the entries the result draws on are clean, the
/// entry is carried over exactly.
fn product_entry(a: &M44, b: &M44, j: usize, i: usize) -> (r: u32)
    requires
        j < 4,
        i < 4,
    ensures
        canon(r) == mul_entry_spec(*a, *b, j as int, i as int),
        row_is_axis(*a, j as int) && col_clean(*b, i as int) ==> r == b.m[j as int][i as int],
        col_is_axis(*b, i as int) && row_clean(*a, j as int) ==> r == a.m[j as int][i as int],
{
    let t0 = fmul(a.m[j][0], b.m[0][i]);
    let t1 = fmul(a.m[j][1], b.m[1][i]);
    let t2 = fmul(a.m[j][2], b.m[2][i]);
    let t3 = fmul(a.m[j][3], b.m[3][i]);
    let r = fadd(fadd(fadd(t0, t1), t2), t3);
    proof {
        let jj = j as int;
        let ii = i as int;
        if row_is_axis(*a, jj) && col_clean(*b, ii) {
            lemma_const_bits();
            assert(a.m[jj][0] == if jj == 0 { ONE_BITS } else { ZERO_BITS });
            assert(a.m[jj][1] == if jj == 1 { ONE_BITS } else { ZERO_BITS });
            assert(a.m[jj][2] == if jj == 2 { ONE_BITS } else { ZERO_BITS });
            assert(a.m[jj][3] == if jj == 3 { ONE_BITS } else { ZERO_BITS });
            assert(is_clean(b.m[0][ii]) && is_clean(b.m[1][ii]) && is_clean(b.m[2][ii])
                && is_clean(b.m[3][ii]));
            assert(r == b.m[jj][ii]);
        }
        if col_is_axis(*b, ii) && row_clean(*a, jj) {
            lemma_const_bits();
            assert(b.m[0][ii] == if ii == 0 { ONE_BITS } else { ZERO_BITS });
            assert(b.m[1][ii] == if ii == 1 { ONE_BITS } else { ZERO_BITS });
            assert(b.m[2][ii] == if ii == 2 { ONE_BITS } else { ZERO_BITS });
            assert(b.m[3][ii] == if ii == 3 { ONE_BITS } else { ZERO_BITS });
            assert(is_clean(a.m[jj][0]) && is_clean(a.m[jj][1]) && is_clean(a.m[jj][2])
                && is_clean(a.m[jj][3]));
            assert(r == a.m[jj][ii]);
        }
    }
    r
}

impl M44 {
    /// Constructs directly from a given 4x4 array of entry bit patterns, no
    /// validation.
    pub fn new(m: [[u32; 4]; 4]) -> (r: M44)
        ensures
            r.m == m,
    {
        M44 { m }
    }

    /// The multiplicative identity matrix.
    pub fn identity() -> (r: M44)
        ensures
            r == identity_spec(),
            is_identity(r),
    {
        M44 {
            m: [
                [ONE_BITS, ZERO_BITS, ZERO_BITS, ZERO_BITS],
                [ZERO_BITS, ONE_BITS, ZERO_BITS, ZERO_BITS],
                [ZERO_BITS, ZERO_BITS, ONE_BITS, ZERO_BITS],
                [ZERO_BITS, ZERO_BITS, ZERO_BITS, ONE_BITS],
            ],
        }
    }

    /// A diagonal matrix with `value` in all four diagonal entries, zeros
    /// elsewhere.
    pub fn with_value(value: u32) -> (r: M44)
        ensures
            forall|j: int, i: int|
                0 <= j < 4 && 0 <= i < 4 ==> r.m[j][i] == (if i == j {
                    value
                } else {
                    ZERO_BITS
                }),
    {
        M44 {
            m: [
                [value, ZERO_BITS, ZERO_BITS, ZERO_BITS],
                [ZERO_BITS, value, ZERO_BITS, ZERO_BITS],
                [ZERO_BITS, ZERO_BITS, value, ZERO_BITS],
                [ZERO_BITS, ZERO_BITS, ZERO_BITS, value],
            ],
        }
    }

    /// Swaps `m[j][i]` with `m[i][j]` for all `j`, `i`, returning a new
    /// matrix and leaving the receiver unchanged.
    pub fn transpose(&self) -> (r: M44)
        ensures
            r == transpose_spec(*self),
            forall|j: int, i: int| 0 <= j < 4 && 0 <= i < 4 ==> r.m[j][i] == self.m[i][j],
    {
        M44 {
            m: [
                [self.m[0][0], self.m[1][0], self.m[2][0], self.m[3][0]],
                [self.m[0][1], self.m[1][1], self.m[2][1], self.m[3][1]],
                [self.m[0][2], self.m[1][2], self.m[2][2], self.m[3][2]],
                [self.m[0][3], self.m[1][3], self.m[2][3], self.m[3][3]],
            ],
        }
    }

    /// The determinant of the upper-left 3x3 submatrix only (not the full
    /// 4x4 determinant), by the standard 3x3 cofactor expansion. A deliberate
    /// simplification for affine transform matrices whose last column is the
    /// fixed projective one.
    pub fn det(&self) -> (r: u32)
        ensures
            canon(r) == det_spec(*self),
            is_nan_bits(r) == is_nan_bits(det_spec(*self)),
    {
        let m0 = fsub(fmul(self.m[1][1], self.m[2][2]), fmul(self.m[1][2], self.m[2][1]));
        let m1 = fsub(fmul(self.m[1][0], self.m[2][2]), fmul(self.m[1][2], self.m[2][0]));
        let m2 = fsub(fmul(self.m[1][0], self.m[2][1]), fmul(self.m[1][1], self.m[2][0]));
        let c0 = fmul(self.m[0][0], m0);
        let c1 = fmul(self.m[0][1], m1);
        let c2 = fmul(self.m[0][2], m2);
        fadd(fsub(c0, c1), c2)
    }

    /// Adds the vector's components into the translation column, returning a
    /// new matrix with every other entry unchanged. Composing with an
    /// existing transform combines translations additively, not by matrix
    /// multiplication.
    pub fn translate(&self, v: V3) -> (r: M44)
        ensures
            r.m[0] == self.m[0],
            r.m[1] == self.m[1],
            r.m[2] == self.m[2],
            r.m[3][3] == self.m[3][3],
            canon(r.m[3][0]) == sadd(self.m[3][0], v.x),
            canon(r.m[3][1]) == sadd(self.m[3][1], v.y),
            canon(r.m[3][2]) == sadd(self.m[3][2], v.z),
            propagates2(self.m[3][0], v.x, r.m[3][0]),
            propagates2(self.m[3][1], v.y, r.m[3][1]),
            propagates2(self.m[3][2], v.z, r.m[3][2]),
    {
        M44 {
            m: [
                self.m[0],
                self.m[1],
                self.m[2],
                [
                    fadd(self.m[3][0], v.x),
                    fadd(self.m[3][1], v.y),
                    fadd(self.m[3][2], v.z),
                    self.m[3][3],
                ],
            ],
        }
    }

    /// Multiplies the three upper-left diagonal entries by the vector's
    /// respective components, returning a new matrix with every other entry
    /// unchanged. Where a diagonal entry is one the product is the scale
    /// component exactly, and where a scale component is one the entry is
    /// kept exactly, NaNs aside.
    pub fn scale(&self, v: V3) -> (r: M44)
        ensures
            canon(r.m[0][0]) == smul(self.m[0][0], v.x),
            canon(r.m[1][1]) == smul(self.m[1][1], v.y),
            canon(r.m[2][2]) == smul(self.m[2][2], v.z),
            propagates2(self.m[0][0], v.x, r.m[0][0]),
            propagates2(self.m[1][1], v.y, r.m[1][1]),
            propagates2(self.m[2][2], v.z, r.m[2][2]),
            self.m[0][0] == ONE_BITS && !is_nan_bits(v.x) ==> r.m[0][0] == v.x,
            self.m[1][1] == ONE_BITS && !is_nan_bits(v.y) ==> r.m[1][1] == v.y,
            self.m[2][2] == ONE_BITS && !is_nan_bits(v.z) ==> r.m[2][2] == v.z,
            v.x == ONE_BITS && !is_nan_bits(self.m[0][0]) ==> r.m[0][0] == self.m[0][0],
            v.y == ONE_BITS && !is_nan_bits(self.m[1][1]) ==> r.m[1][1] == self.m[1][1],
            v.z == ONE_BITS && !is_nan_bits(self.m[2][2]) ==> r.m[2][2] == self.m[2][2],
            forall|j: int, i: int|
                0 <= j < 4 && 0 <= i < 4 && !(i == j && j < 3) ==> r.m[j][i] == #[trigger] self.m[j][i],
    {
        M44 {
            m: [
                [fmul(self.m[0][0], v.x), self.m[0][1], self.m[0][2], self.m[0][3]],
                [self.m[1][0], fmul(self.m[1][1], v.y), self.m[1][2], self.m[1][3]],
                [self.m[2][0], self.m[2][1], fmul(self.m[2][2], v.z), self.m[2][3]],
                self.m[3],
            ],
        }
    }

    /// The standard matrix product `self * rhs`:
    /// `r.m[j][i] = sum over k of self.m[j][k] * rhs.m[k][i]`, each entry
    /// pinned up to the NaN payload.
    ///
    /// Where a row of `self` (or a column of `rhs`) is a unit axis, the
    /// other factor's entries on that line are carried over exactly when
    /// they are clean; multiplying by the identity on either side therefore
    /// gives the other factor back exactly when its entries are finite and
    /// not negative zero (`m44_clean`).
    pub fn mul(self, rhs: M44) -> (r: M44)
        ensures
            product_canon_eq(r, self, rhs),
            forall|j: int, i: int|
                0 <= j < 4 && 0 <= i < 4 && row_is_axis(self, j) && col_clean(rhs, i)
                    ==> #[trigger] r.m[j][i] == rhs.m[j][i],
            forall|j: int, i: int|
                0 <= j < 4 && 0 <= i < 4 && col_is_axis(rhs, i) && row_clean(self, j)
                    ==> #[trigger] r.m[j][i] == self.m[j][i],
            is_identity(self) && m44_clean(rhs) ==> r == rhs,
            is_identity(rhs) && m44_clean(self) ==> r == self,
    {
        let r = M44 {
            m: [
                [
                    product_entry(&self, &rhs, 0, 0),
                    product_entry(&self, &rhs, 0, 1),
                    product_entry(&self, &rhs, 0, 2),
                    product_entry(&self, &rhs, 0, 3),
                ],
                [
                    product_entry(&self, &rhs, 1, 0),
                    product_entry(&self, &rhs, 1, 1),
                    product_entry(&self, &rhs, 1, 2),
                    product_entry(&self, &rhs, 1, 3),
                ],
                [
                    product_entry(&self, &rhs, 2, 0),
                    product_entry(&self, &rhs, 2, 1),
                    product_entry(&self, &rhs, 2, 2),
                    product_entry(&self, &rhs, 2, 3),
                ],
                [
                    product_entry(&self, &rhs, 3, 0),
                    product_entry(&self, &rhs, 3, 1),
                    product_entry(&self, &rhs, 3, 2),
                    product_entry(&self, &rhs, 3, 3),
                ],
            ],
        };
        proof {
            if is_identity(self) && m44_clean(rhs) {
                assert forall|j: int| 0 <= j < 4 implies row_is_axis(self, j) by {}
                assert forall|i: int| 0 <= i < 4 implies col_clean(rhs, i) by {}
                assert forall|j: int| 0 <= j < 4 implies r.m[j] == rhs.m[j] by {
                    assert(r.m[j] =~= rhs.m[j]);
                }
                assert(r.m =~= rhs.m);
            }
            if is_identity(rhs) && m44_clean(self) {
                assert forall|i: int| 0 <= i < 4 implies col_is_axis(rhs, i) by {}
                assert forall|j: int| 0 <= j < 4 implies row_clean(self, j) by {}
                assert forall|j: int| 0 <= j < 4 implies r.m[j] == self.m[j] by {
                    assert(r.m[j] =~= self.m[j]);
                }
                assert(r.m =~= self.m);
            }
        }
        r
    }

    /// The matrix product, in place.
    pub fn mul_assign(&mut self, rhs: M44)
        ensures
            product_canon_eq(*final(self), *old(self), rhs),
            is_identity(*old(self)) && m44_clean(rhs) ==> *final(self) == rhs,
            is_identity(rhs) && m44_clean(*old(self)) ==> *final(self) == *old(self),
    {
        let a = *self;
        *self = a.mul(rhs);
    }

    /// Builds the classical rotation matrix about the x-axis from the given
    /// cosine and sine bit patterns, exactly.
    pub fn rot_x_matrix(c: u32, s: u32) -> (r: M44)
        ensures
            r == rot_x_spec(c, s),
    {
        M44 {
            m: [
                [ONE_BITS, ZERO_BITS, ZERO_BITS, ZERO_BITS],
                [ZERO_BITS, c, s, ZERO_BITS],
                [ZERO_BITS, fneg(s), c, ZERO_BITS],
                [ZERO_BITS, ZERO_BITS, ZERO_BITS, ONE_BITS],
            ],
        }
    }

    /// Builds the classical rotation matrix about the y-axis from the given
    /// cosine and sine bit patterns, exactly.
    pub fn rot_y_matrix(c: u32, s: u32) -> (r: M44)
        ensures
            r == rot_y_spec(c, s),
    {
        M44 {
            m: [
                [c, ZERO_BITS, fneg(s), ZERO_BITS],
                [ZERO_BITS, ONE_BITS, ZERO_BITS, ZERO_BITS],
                [s, ZERO_BITS, c, ZERO_BITS],
                [ZERO_BITS, ZERO_BITS, ZERO_BITS, ONE_BITS],
            ],
        }
    }

    /// Builds the classical rotation matrix about the z-axis from the given
    /// cosine and sine bit patterns, exactly.
    pub fn rot_z_matrix(c: u32, s: u32) -> (r: M44)
        ensures
            r == rot_z_spec(c, s),
    {
        M44 {
            m: [
                [c, s, ZERO_BITS, ZERO_BITS],
                [fneg(s), c, ZERO_BITS, ZERO_BITS],
                [ZERO_BITS, ZERO_BITS, ONE_BITS, ZERO_BITS],
                [ZERO_BITS, ZERO_BITS, ZERO_BITS, ONE_BITS],
            ],
        }
    }

    /// The product of the x-axis rotation for the angle (in radians) with
    /// the receiver: the rotation is applied first, composing on the left.
    /// The cosine and sine come from the platform's libm, whose precision is
    /// not pinned down, so the product contract holds for some cosine and
    /// sine bits rather than for two particular ones; `rot_x_matrix` and
    /// `mul` carry the exact contracts. The rotation leaves the first and
    /// last rows of its matrix as unit axes, so the receiver's entries on
    /// those lines pass through exactly when they are clean.
    pub fn rot_x(&self, rad: u32) -> (r: M44)
        ensures
            exists|c: u32, s: u32| product_canon_eq(r, rot_x_spec(c, s), *self),
            forall|i: int|
                0 <= i < 4 && col_clean(*self, i) ==> #[trigger] r.m[0][i] == self.m[0][i]
                    && r.m[3][i] == self.m[3][i],
    {
        let c = fcos(rad);
        let s = fsin(rad);
        let rot_matrix = M44::rot_x_matrix(c, s);
        let r = rot_matrix.mul(*self);
        proof {
            assert(product_canon_eq(r, rot_x_spec(c, s), *self));
            assert(row_is_axis(rot_matrix, 0));
            assert(row_is_axis(rot_matrix, 3));
        }
        r
    }

    /// The product of the y-axis rotation for the angle (in radians) with
    /// the receiver; see `rot_x`. Here the second and last rows pass
    /// through.
    pub fn rot_y(&self, rad: u32) -> (r: M44)
        ensures
            exists|c: u32, s: u32| product_canon_eq(r, rot_y_spec(c, s), *self),
            forall|i: int|
                0 <= i < 4 && col_clean(*self, i) ==> #[trigger] r.m[1][i] == self.m[1][i]
                    && r.m[3][i] == self.m[3][i],
    {
        let c = fcos(rad);
        let s = fsin(rad);
        let rot_matrix = M44::rot_y_matrix(c, s);
        let r = rot_matrix.mul(*self);
        proof {
            assert(product_canon_eq(r, rot_y_spec(c, s), *self));
            assert(row_is_axis(rot_matrix, 1));
            assert(row_is_axis(rot_matrix, 3));
        }
        r
    }

    /// The product of the z-axis rotation for the angle (in radians) with
    /// the receiver; see `rot_x`. Here the third and last rows pass through.
    pub fn rot_z(&self, rad: u32) -> (r: M44)
        ensures
            exists|c: u32, s: u32| product_canon_eq(r, rot_z_spec(c, s), *self),
            forall|i: int|
                0 <= i < 4 && col_clean(*self, i) ==> #[trigger] r.m[2][i] == self.m[2][i]
                    && r.m[3][i] == self.m[3][i],
    {
        let c = fcos(rad);
        let s = fsin(rad);
        let rot_matrix = M44::rot_z_matrix(c, s);
        let r = rot_matrix.mul(*self);
        proof {
            assert(product_canon_eq(r, rot_z_spec(c, s), *self));
            assert(row_is_axis(rot_matrix, 2));
            assert(row_is_axis(rot_matrix, 3));
        }
        r
    }

    /// Builds a right-handed view matrix: the camera basis `right`, `trueUp`,
    /// `-forward` in the upper-left, the translation `(-right.eye,
    /// -trueUp.eye, forward.eye)` in the fourth column, and a fixed
    /// projective component of `(0, 0, 0, 1)`. Every computed entry is
    /// pinned to the model up to the NaN payload; degenerate inputs (a zero
    /// direction, collinear `up`) propagate IEEE NaNs and infinities, as the
    /// arithmetic leaves them.
    pub fn look_at(eye: V3, center: V3, up: V3) -> (r: M44)
        ensures
            m44_canon_eq(r, look_at_spec(eye, center, up)),
            r.m[0][3] == ZERO_BITS,
            r.m[1][3] == ZERO_BITS,
            r.m[2][3] == ZERO_BITS,
            r.m[3][3] == ONE_BITS,
    {
        let diff = center.sub(eye);
        let forward = diff.get_normalized();
        let fcross = forward.cross(up);
        let right = fcross.get_normalized();
        let u = right.cross(forward);
        let d_right = right.dot(eye);
        let d_u = u.dot(eye);
        let d_forward = forward.dot(eye);

        let r = M44 {
            m: [
                [right.x, u.x, fneg(forward.x), ZERO_BITS],
                [right.y, u.y, fneg(forward.y), ZERO_BITS],
                [right.z, u.z, fneg(forward.z), ZERO_BITS],
                [fneg(d_right), fneg(d_u), d_forward, ONE_BITS],
            ],
        };
        proof {
            lemma_const_bits();
            let ms = sub_spec(center, eye);
            let mf = normalized_spec(ms);
            let mcr = cross_spec(mf, up);
            let mr = normalized_spec(mcr);
            let mu = cross_spec(mr, mf);
            lemma_normalized_stable(diff, ms);
            assert(v3_canon_eq(forward, mf));
            lemma_cross_stable(forward, mf, up);
            assert(v3_canon_eq(fcross, mcr));
            lemma_normalized_stable(fcross, mcr);
            assert(v3_canon_eq(right, mr));
            lemma_cross_stable(right, mr, forward);
            lemma_cross_stable(forward, mf, mr);
            assert(v3_canon_eq(u, mu));
            lemma_dot_stable(right, mr, eye);
            lemma_dot_stable(u, mu, eye);
            lemma_dot_stable(forward, mf, eye);
        }
        r
    }

    /// Builds the standard right-handed perspective projection from the
    /// tangent of half the field of view: `f = 1/tan(fov/2)`, entries
    /// `f/aspect`, `f`, `(far+near)/(near-far)`, `-1` and
    /// `2*far*near/(near-far)` in the classical layout, zeros elsewhere.
    /// Every computed entry is pinned to the model up to the NaN payload.
    pub fn perspective_with_tan(tan_half_fov: u32, aspect: u32, near: u32, far: u32) -> (r: M44)
        ensures
            m44_canon_eq(r, perspective_spec(tan_half_fov, aspect, near, far)),
            r.m[0][1] == ZERO_BITS && r.m[0][2] == ZERO_BITS && r.m[0][3] == ZERO_BITS,
            r.m[1][0] == ZERO_BITS && r.m[1][2] == ZERO_BITS && r.m[1][3] == ZERO_BITS,
            r.m[2][0] == ZERO_BITS && r.m[2][1] == ZERO_BITS,
            r.m[3][0] == ZERO_BITS && r.m[3][1] == ZERO_BITS && r.m[3][3] == ZERO_BITS,
            r.m[2][3] == neg_bits(ONE_BITS),
    {
        let f = fdiv(ONE_BITS, tan_half_fov);
        let nf = fdiv(ONE_BITS, fsub(near, far));
        let r = M44 {
            m: [
                [fdiv(f, aspect), ZERO_BITS, ZERO_BITS, ZERO_BITS],
                [ZERO_BITS, f, ZERO_BITS, ZERO_BITS],
                [ZERO_BITS, ZERO_BITS, fmul(fadd(far, near), nf), fneg(ONE_BITS)],
                [ZERO_BITS, ZERO_BITS, fmul(fmul(fmul(TWO_BITS, far), near), nf), ZERO_BITS],
            ],
        };
        proof {
            lemma_const_bits();
        }
        r
    }

    /// The standard right-handed perspective projection for a field of view
    /// in radians. The tangent of half the angle comes from the platform's
    /// libm, whose precision is not pinned down, so the contract holds for
    /// some tangent bits; `perspective_with_tan` carries the exact contract.
    /// The two depth entries do not depend on the tangent and are pinned
    /// outright.
    pub fn perspective(fov: u32, aspect: u32, near: u32, far: u32) -> (r: M44)
        ensures
            exists|t: u32| m44_canon_eq(r, perspective_spec(t, aspect, near, far)),
            canon(r.m[2][2]) == smul(sadd(far, near), sdiv(ONE_BITS, ssub(near, far))),
            canon(r.m[3][2]) == smul(smul(smul(TWO_BITS, far), near), sdiv(ONE_BITS, ssub(near, far))),
            r.m[0][1] == ZERO_BITS && r.m[0][2] == ZERO_BITS && r.m[0][3] == ZERO_BITS,
            r.m[1][0] == ZERO_BITS && r.m[1][2] == ZERO_BITS && r.m[1][3] == ZERO_BITS,
            r.m[2][0] == ZERO_BITS && r.m[2][1] == ZERO_BITS,
            r.m[3][0] == ZERO_BITS && r.m[3][1] == ZERO_BITS && r.m[3][3] == ZERO_BITS,
            r.m[2][3] == neg_bits(ONE_BITS),
    {
        let t = ftan(fdiv(fov, TWO_BITS));
        let r = M44::perspective_with_tan(t, aspect, near, far);
        proof {
            assert(m44_canon_eq(r, perspective_spec(t, aspect, near, far)));
        }
        r
    }
}

impl Default for M44 {
    /// The zero matrix.
    fn default() -> (r: M44)
        ensures
            forall|j: int, i: int| 0 <= j < 4 && 0 <= i < 4 ==> #[trigger] r.m[j][i] == ZERO_BITS,
    {
        M44 {
            m: [
                [ZERO_BITS, ZERO_BITS, ZERO_BITS, ZERO_BITS],
                [ZERO_BITS, ZERO_BITS, ZERO_BITS, ZERO_BITS],
                [ZERO_BITS, ZERO_BITS, ZERO_BITS, ZERO_BITS],
                [ZERO_BITS, ZERO_BITS, ZERO_BITS, ZERO_BITS],
            ],
        }
    }
}

/// The 3x3 cofactor expansion that `det` returns, canonical:
/// `m00*(m11*m22 - m12*m21) - m01*(m10*m22 - m12*m20) + m02*(m10*m21 - m11*m20)`,
/// written over the column-major entries `a.m[column][row]`.
pub open spec fn det_spec(a: M44) -> u32 {
    let m0 = ssub(smul(a.m[1][1], a.m[2][2]), smul(a.m[1][2], a.m[2][1]));
    let m1 = ssub(smul(a.m[1][0], a.m[2][2]), smul(a.m[1][2], a.m[2][0]));
    let m2 = ssub(smul(a.m[1][0], a.m[2][1]), smul(a.m[1][1], a.m[2][0]));
    sadd(ssub(smul(a.m[0][0], m0), smul(a.m[0][1], m1)), smul(a.m[0][2], m2))
}

/// The classical rotation matrix about the x-axis, from cosine and sine bits.
pub open spec fn rot_x_spec(c: u32, s: u32) -> M44 {
    M44 {
        m: [
            [ONE_BITS, ZERO_BITS, ZERO_BITS, ZERO_BITS],
            [ZERO_BITS, c, s, ZERO_BITS],
            [ZERO_BITS, neg_bits(s), c, ZERO_BITS],
            [ZERO_BITS, ZERO_BITS, ZERO_BITS, ONE_BITS],
        ],
    }
}

/// The classical rotation matrix about the y-axis, from cosine and sine bits.
pub open spec fn rot_y_spec(c: u32, s: u32) -> M44 {
    M44 {
        m: [
            [c, ZERO_BITS, neg_bits(s), ZERO_BITS],
            [ZERO_BITS, ONE_BITS, ZERO_BITS, ZERO_BITS],
            [s, ZERO_BITS, c, ZERO_BITS],
            [ZERO_BITS, ZERO_BITS, ZERO_BITS, ONE_BITS],
        ],
    }
}

/// The classical rotation matrix about the z-axis, from cosine and sine bits.
pub open spec fn rot_z_spec(c: u32, s: u32) -> M44 {
    M44 {
        m: [
            [c, s, ZERO_BITS, ZERO_BITS],
            [neg_bits(s), c, ZERO_BITS, ZERO_BITS],
            [ZERO_BITS, ZERO_BITS, ONE_BITS, ZERO_BITS],
            [ZERO_BITS, ZERO_BITS, ZERO_BITS, ONE_BITS],
        ],
    }
}

/// The right-handed view matrix of `look_at`, canonical: with
/// `forward = normalize(center - eye)`, `right = normalize(forward x up)` and
/// `trueUp = right x forward`, the columns hold the basis vectors and the
/// last column the translation `(-right.eye, -trueUp.eye, forward.eye, 1)`.
pub open spec fn look_at_spec(eye: V3, center: V3, up: V3) -> M44 {
    let forward = normalized_spec(sub_spec(center, eye));
    let right = normalized_spec(cross_spec(forward, up));
    let u = cross_spec(right, forward);
    M44 {
        m: [
            [right.x, u.x, sneg(forward.x), ZERO_BITS],
            [right.y, u.y, sneg(forward.y), ZERO_BITS],
            [right.z, u.z, sneg(forward.z), ZERO_BITS],
            [
                sneg(dot_spec(right, eye)),
                sneg(dot_spec(u, eye)),
                dot_spec(forward, eye),
                ONE_BITS,
            ],
        ],
    }
}

/// The right-handed perspective projection of `perspective`, canonical, from
/// the bits `t` of the tangent of half the field of view: `f = 1/t`,
/// `nf = 1/(near - far)`, entries `f/aspect`, `f`, `(far+near)*nf`, `-1` and
/// `2*far*near*nf` in the classical layout, zeros elsewhere.
pub open spec fn perspective_spec(t: u32, aspect: u32, near: u32, far: u32) -> M44 {
    let f = sdiv(ONE_BITS, t);
    let nf = sdiv(ONE_BITS, ssub(near, far));
    M44 {
        m: [
            [sdiv(f, aspect), ZERO_BITS, ZERO_BITS, ZERO_BITS],
            [ZERO_BITS, f, ZERO_BITS, ZERO_BITS],
            [ZERO_BITS, ZERO_BITS, smul(sadd(far, near), nf), neg_bits(ONE_BITS)],
            [ZERO_BITS, ZERO_BITS, smul(smul(smul(TWO_BITS, far), near), nf), ZERO_BITS],
        ],
    }
}

/// Transposing twice gives back the original matrix, whatever its entries.
pub proof fn lemma_transpose_involution(a: M44)
    ensures
        transpose_spec(transpose_spec(a)) == a,
{
    let t = transpose_spec(transpose_spec(a));
    assert forall|j: int| 0 <= j < 4 implies t.m[j] == a.m[j] by {
        assert(t.m[j] =~= a.m[j]);
    }
    assert(t.m =~= a.m);
}

} // verus!
