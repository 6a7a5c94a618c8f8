//! Small fixed-point matrices.
//!
//! `Mat3` carries rotations built by the sampling code.  Entries are
//! scalars at denominator `SCALE`; applying a matrix rescales the
//! resulting coordinates back down.

use vstd::prelude::*;
use crate::fixed::{tdiv, div_wide, SCALE};
use crate::types::{Vec3, bounded, wide_mul, lemma_tdiv_shrink};

verus! {

/// A 3x3 matrix of scalars at denominator [`SCALE`].
#[derive(Clone, Copy, Debug, PartialEq, Eq, Structural)]
pub struct Mat3 {
    pub m00: i64,
    pub m01: i64,
    pub m02: i64,
    pub m10: i64,
    pub m11: i64,
    pub m12: i64,
    pub m20: i64,
    pub m21: i64,
    pub m22: i64,
}

/// All nine entries within `[-b, b]`.
pub open spec fn mat3_bounded(m: Mat3, b: int) -> bool {
    &&& -b <= m.m00 <= b
    &&& -b <= m.m01 <= b
    &&& -b <= m.m02 <= b
    &&& -b <= m.m10 <= b
    &&& -b <= m.m11 <= b
    &&& -b <= m.m12 <= b
    &&& -b <= m.m20 <= b
    &&& -b <= m.m21 <= b
    &&& -b <= m.m22 <= b
}

/// The identity rotation.
pub open spec fn mat3_identity() -> Mat3 {
    Mat3 { m00: SCALE, m01: 0, m02: 0, m10: 0, m11: SCALE, m12: 0, m20: 0, m21: 0, m22: SCALE }
}

/// One row of a matrix-vector product: `(a*x + b*y + c*z) / SCALE`.
pub open spec fn mat3_row_spec(a: int, b: int, c: int, v: Vec3) -> int {
    tdiv(a * v.x + b * v.y + c * v.z, SCALE as int)
}

/// The matrix applied to a vector, rescaled back to denominator `SCALE`.
pub open spec fn mat3_apply_spec(m: Mat3, v: Vec3) -> Vec3 {
    Vec3 {
        x: mat3_row_spec(m.m00 as int, m.m01 as int, m.m02 as int, v) as i64,
        y: mat3_row_spec(m.m10 as int, m.m11 as int, m.m12 as int, v) as i64,
        z: mat3_row_spec(m.m20 as int, m.m21 as int, m.m22 as int, v) as i64,
    }
}

impl Mat3 {
    /// The identity rotation.
    pub fn identity() -> (r: Mat3)
        ensures
            r == mat3_identity(),
    {
        Mat3 { m00: SCALE, m01: 0, m02: 0, m10: 0, m11: SCALE, m12: 0, m20: 0, m21: 0, m22: SCALE }
    }

    /// Applies the matrix to a vector.
    pub fn apply(&self, v: &Vec3) -> (r: Vec3)
        requires
            mat3_bounded(*self, 0x100000),
            bounded(*v, 0x20000),
        ensures
            r == mat3_apply_spec(*self, *v),
            bounded(r, 0x600000),
    {
        let rx = mat3_row(self.m00, self.m01, self.m02, v);
        let ry = mat3_row(self.m10, self.m11, self.m12, v);
        let rz = mat3_row(self.m20, self.m21, self.m22, v);
        Vec3 { x: rx, y: ry, z: rz }
    }
}

/// One row of a matrix-vector product.
fn mat3_row(a: i64, b: i64, c: i64, v: &Vec3) -> (r: i64)
    requires
        -0x100000 <= a <= 0x100000,
        -0x100000 <= b <= 0x100000,
        -0x100000 <= c <= 0x100000,
        bounded(*v, 0x20000),
    ensures
        r == mat3_row_spec(a as int, b as int, c as int, *v),
        -0x600000 <= r <= 0x600000,
{
    let pa = wide_mul(a, v.x);
    let pb = wide_mul(b, v.y);
    let pc = wide_mul(c, v.z);
    proof {
        assert(-0x2000000000 <= a * v.x <= 0x2000000000) by (nonlinear_arith)
            requires
                -0x100000 <= a <= 0x100000,
                -0x20000 <= v.x <= 0x20000,
        ;
        assert(-0x2000000000 <= b * v.y <= 0x2000000000) by (nonlinear_arith)
            requires
                -0x100000 <= b <= 0x100000,
                -0x20000 <= v.y <= 0x20000,
        ;
        assert(-0x2000000000 <= c * v.z <= 0x2000000000) by (nonlinear_arith)
            requires
                -0x100000 <= c <= 0x100000,
                -0x20000 <= v.z <= 0x20000,
        ;
        lemma_tdiv_shrink(a * v.x + b * v.y + c * v.z, 0x6000000000, SCALE as int);
    }
    let sum: i128 = pa + pb + pc;
    div_wide(sum, SCALE as i128) as i64
}


/// A 4x4 homogeneous-transform matrix.  Entries are wide integers; the
/// chain applies matrices projectively, so a common scale factor on all
/// sixteen entries leaves the transform unchanged.
#[derive(Clone, Copy, Debug, PartialEq, Eq, Structural)]
pub struct Mat4 {
    pub e00: i128,
    pub e01: i128,
    pub e02: i128,
    pub e03: i128,
    pub e10: i128,
    pub e11: i128,
    pub e12: i128,
    pub e13: i128,
    pub e20: i128,
    pub e21: i128,
    pub e22: i128,
    pub e23: i128,
    pub e30: i128,
    pub e31: i128,
    pub e32: i128,
    pub e33: i128,
}

/// A homogeneous coordinate vector.
#[derive(Clone, Copy, Debug, PartialEq, Eq, Structural)]
pub struct Vec4 {
    pub x: i128,
    pub y: i128,
    pub z: i128,
    pub w: i128,
}

/// All sixteen entries within `[-b, b]`.
pub open spec fn m4_bounded(m: Mat4, b: int) -> bool {
    &&& -b <= m.e00 <= b && -b <= m.e01 <= b && -b <= m.e02 <= b && -b <= m.e03 <= b
    &&& -b <= m.e10 <= b && -b <= m.e11 <= b && -b <= m.e12 <= b && -b <= m.e13 <= b
    &&& -b <= m.e20 <= b && -b <= m.e21 <= b && -b <= m.e22 <= b && -b <= m.e23 <= b
    &&& -b <= m.e30 <= b && -b <= m.e31 <= b && -b <= m.e32 <= b && -b <= m.e33 <= b
}

/// The all-zero matrix, the initial value of every camera transform.
pub open spec fn m4_zero() -> Mat4 {
    Mat4 {
        e00: 0, e01: 0, e02: 0, e03: 0,
        e10: 0, e11: 0, e12: 0, e13: 0,
        e20: 0, e21: 0, e22: 0, e23: 0,
        e30: 0, e31: 0, e32: 0, e33: 0,
    }
}

/// `k` on the diagonal, zero elsewhere.
pub open spec fn m4_scalar(k: int) -> Mat4 {
    Mat4 {
        e00: k as i128, e01: 0, e02: 0, e03: 0,
        e10: 0, e11: k as i128, e12: 0, e13: 0,
        e20: 0, e21: 0, e22: k as i128, e23: 0,
        e30: 0, e31: 0, e32: 0, e33: k as i128,
    }
}

/// One entry of a matrix product: the dot of row `i` of `a` with column
/// `j` of `b`.
pub open spec fn dot4_spec(a0: int, a1: int, a2: int, a3: int, b0: int, b1: int, b2: int,
    b3: int) -> int {
    a0 * b0 + a1 * b1 + a2 * b2 + a3 * b3
}


/// The plain matrix product, without rescaling: used to state what the
/// projective chain composes to.
pub open spec fn m4_mul_raw_spec(a: Mat4, b: Mat4) -> Mat4 {
    Mat4 {
        e00: dot4_spec(a.e00 as int, a.e01 as int, a.e02 as int, a.e03 as int, b.e00 as int, b.e10 as int, b.e20 as int, b.e30 as int) as i128,
        e01: dot4_spec(a.e00 as int, a.e01 as int, a.e02 as int, a.e03 as int, b.e01 as int, b.e11 as int, b.e21 as int, b.e31 as int) as i128,
        e02: dot4_spec(a.e00 as int, a.e01 as int, a.e02 as int, a.e03 as int, b.e02 as int, b.e12 as int, b.e22 as int, b.e32 as int) as i128,
        e03: dot4_spec(a.e00 as int, a.e01 as int, a.e02 as int, a.e03 as int, b.e03 as int, b.e13 as int, b.e23 as int, b.e33 as int) as i128,
        e10: dot4_spec(a.e10 as int, a.e11 as int, a.e12 as int, a.e13 as int, b.e00 as int, b.e10 as int, b.e20 as int, b.e30 as int) as i128,
        e11: dot4_spec(a.e10 as int, a.e11 as int, a.e12 as int, a.e13 as int, b.e01 as int, b.e11 as int, b.e21 as int, b.e31 as int) as i128,
        e12: dot4_spec(a.e10 as int, a.e11 as int, a.e12 as int, a.e13 as int, b.e02 as int, b.e12 as int, b.e22 as int, b.e32 as int) as i128,
        e13: dot4_spec(a.e10 as int, a.e11 as int, a.e12 as int, a.e13 as int, b.e03 as int, b.e13 as int, b.e23 as int, b.e33 as int) as i128,
        e20: dot4_spec(a.e20 as int, a.e21 as int, a.e22 as int, a.e23 as int, b.e00 as int, b.e10 as int, b.e20 as int, b.e30 as int) as i128,
        e21: dot4_spec(a.e20 as int, a.e21 as int, a.e22 as int, a.e23 as int, b.e01 as int, b.e11 as int, b.e21 as int, b.e31 as int) as i128,
        e22: dot4_spec(a.e20 as int, a.e21 as int, a.e22 as int, a.e23 as int, b.e02 as int, b.e12 as int, b.e22 as int, b.e32 as int) as i128,
        e23: dot4_spec(a.e20 as int, a.e21 as int, a.e22 as int, a.e23 as int, b.e03 as int, b.e13 as int, b.e23 as int, b.e33 as int) as i128,
        e30: dot4_spec(a.e30 as int, a.e31 as int, a.e32 as int, a.e33 as int, b.e00 as int, b.e10 as int, b.e20 as int, b.e30 as int) as i128,
        e31: dot4_spec(a.e30 as int, a.e31 as int, a.e32 as int, a.e33 as int, b.e01 as int, b.e11 as int, b.e21 as int, b.e31 as int) as i128,
        e32: dot4_spec(a.e30 as int, a.e31 as int, a.e32 as int, a.e33 as int, b.e02 as int, b.e12 as int, b.e22 as int, b.e32 as int) as i128,
        e33: dot4_spec(a.e30 as int, a.e31 as int, a.e32 as int, a.e33 as int, b.e03 as int, b.e13 as int, b.e23 as int, b.e33 as int) as i128,
    }
}


/// The matrix product rescaled by `SCALE`, keeping chained transforms at
/// the scale of their factors.
pub open spec fn m4_mul_s_spec(a: Mat4, b: Mat4) -> Mat4 {
    Mat4 {
        e00: tdiv(dot4_spec(a.e00 as int, a.e01 as int, a.e02 as int, a.e03 as int, b.e00 as int, b.e10 as int, b.e20 as int, b.e30 as int), SCALE as int) as i128,
        e01: tdiv(dot4_spec(a.e00 as int, a.e01 as int, a.e02 as int, a.e03 as int, b.e01 as int, b.e11 as int, b.e21 as int, b.e31 as int), SCALE as int) as i128,
        e02: tdiv(dot4_spec(a.e00 as int, a.e01 as int, a.e02 as int, a.e03 as int, b.e02 as int, b.e12 as int, b.e22 as int, b.e32 as int), SCALE as int) as i128,
        e03: tdiv(dot4_spec(a.e00 as int, a.e01 as int, a.e02 as int, a.e03 as int, b.e03 as int, b.e13 as int, b.e23 as int, b.e33 as int), SCALE as int) as i128,
        e10: tdiv(dot4_spec(a.e10 as int, a.e11 as int, a.e12 as int, a.e13 as int, b.e00 as int, b.e10 as int, b.e20 as int, b.e30 as int), SCALE as int) as i128,
        e11: tdiv(dot4_spec(a.e10 as int, a.e11 as int, a.e12 as int, a.e13 as int, b.e01 as int, b.e11 as int, b.e21 as int, b.e31 as int), SCALE as int) as i128,
        e12: tdiv(dot4_spec(a.e10 as int, a.e11 as int, a.e12 as int, a.e13 as int, b.e02 as int, b.e12 as int, b.e22 as int, b.e32 as int), SCALE as int) as i128,
        e13: tdiv(dot4_spec(a.e10 as int, a.e11 as int, a.e12 as int, a.e13 as int, b.e03 as int, b.e13 as int, b.e23 as int, b.e33 as int), SCALE as int) as i128,
        e20: tdiv(dot4_spec(a.e20 as int, a.e21 as int, a.e22 as int, a.e23 as int, b.e00 as int, b.e10 as int, b.e20 as int, b.e30 as int), SCALE as int) as i128,
        e21: tdiv(dot4_spec(a.e20 as int, a.e21 as int, a.e22 as int, a.e23 as int, b.e01 as int, b.e11 as int, b.e21 as int, b.e31 as int), SCALE as int) as i128,
        e22: tdiv(dot4_spec(a.e20 as int, a.e21 as int, a.e22 as int, a.e23 as int, b.e02 as int, b.e12 as int, b.e22 as int, b.e32 as int), SCALE as int) as i128,
        e23: tdiv(dot4_spec(a.e20 as int, a.e21 as int, a.e22 as int, a.e23 as int, b.e03 as int, b.e13 as int, b.e23 as int, b.e33 as int), SCALE as int) as i128,
        e30: tdiv(dot4_spec(a.e30 as int, a.e31 as int, a.e32 as int, a.e33 as int, b.e00 as int, b.e10 as int, b.e20 as int, b.e30 as int), SCALE as int) as i128,
        e31: tdiv(dot4_spec(a.e30 as int, a.e31 as int, a.e32 as int, a.e33 as int, b.e01 as int, b.e11 as int, b.e21 as int, b.e31 as int), SCALE as int) as i128,
        e32: tdiv(dot4_spec(a.e30 as int, a.e31 as int, a.e32 as int, a.e33 as int, b.e02 as int, b.e12 as int, b.e22 as int, b.e32 as int), SCALE as int) as i128,
        e33: tdiv(dot4_spec(a.e30 as int, a.e31 as int, a.e32 as int, a.e33 as int, b.e03 as int, b.e13 as int, b.e23 as int, b.e33 as int), SCALE as int) as i128,
    }
}


/// A 3x3 determinant.
pub open spec fn det3_spec(a: int, b: int, c: int, d: int, e: int, f: int, g: int, h: int,
    i: int) -> int {
    a * (e * i - f * h) - b * (d * i - f * g) + c * (d * h - e * g)
}

/// The adjugate: transposed cofactors, so that `m * adj(m)` is the
/// determinant times the identity.
pub open spec fn m4_adj_spec(m: Mat4) -> Mat4 {
    Mat4 {
        e00: (det3_spec(m.e11 as int, m.e12 as int, m.e13 as int, m.e21 as int, m.e22 as int, m.e23 as int, m.e31 as int, m.e32 as int, m.e33 as int)) as i128,
        e01: (-det3_spec(m.e01 as int, m.e02 as int, m.e03 as int, m.e21 as int, m.e22 as int, m.e23 as int, m.e31 as int, m.e32 as int, m.e33 as int)) as i128,
        e02: (det3_spec(m.e01 as int, m.e02 as int, m.e03 as int, m.e11 as int, m.e12 as int, m.e13 as int, m.e31 as int, m.e32 as int, m.e33 as int)) as i128,
        e03: (-det3_spec(m.e01 as int, m.e02 as int, m.e03 as int, m.e11 as int, m.e12 as int, m.e13 as int, m.e21 as int, m.e22 as int, m.e23 as int)) as i128,
        e10: (-det3_spec(m.e10 as int, m.e12 as int, m.e13 as int, m.e20 as int, m.e22 as int, m.e23 as int, m.e30 as int, m.e32 as int, m.e33 as int)) as i128,
        e11: (det3_spec(m.e00 as int, m.e02 as int, m.e03 as int, m.e20 as int, m.e22 as int, m.e23 as int, m.e30 as int, m.e32 as int, m.e33 as int)) as i128,
        e12: (-det3_spec(m.e00 as int, m.e02 as int, m.e03 as int, m.e10 as int, m.e12 as int, m.e13 as int, m.e30 as int, m.e32 as int, m.e33 as int)) as i128,
        e13: (det3_spec(m.e00 as int, m.e02 as int, m.e03 as int, m.e10 as int, m.e12 as int, m.e13 as int, m.e20 as int, m.e22 as int, m.e23 as int)) as i128,
        e20: (det3_spec(m.e10 as int, m.e11 as int, m.e13 as int, m.e20 as int, m.e21 as int, m.e23 as int, m.e30 as int, m.e31 as int, m.e33 as int)) as i128,
        e21: (-det3_spec(m.e00 as int, m.e01 as int, m.e03 as int, m.e20 as int, m.e21 as int, m.e23 as int, m.e30 as int, m.e31 as int, m.e33 as int)) as i128,
        e22: (det3_spec(m.e00 as int, m.e01 as int, m.e03 as int, m.e10 as int, m.e11 as int, m.e13 as int, m.e30 as int, m.e31 as int, m.e33 as int)) as i128,
        e23: (-det3_spec(m.e00 as int, m.e01 as int, m.e03 as int, m.e10 as int, m.e11 as int, m.e13 as int, m.e20 as int, m.e21 as int, m.e23 as int)) as i128,
        e30: (-det3_spec(m.e10 as int, m.e11 as int, m.e12 as int, m.e20 as int, m.e21 as int, m.e22 as int, m.e30 as int, m.e31 as int, m.e32 as int)) as i128,
        e31: (det3_spec(m.e00 as int, m.e01 as int, m.e02 as int, m.e20 as int, m.e21 as int, m.e22 as int, m.e30 as int, m.e31 as int, m.e32 as int)) as i128,
        e32: (-det3_spec(m.e00 as int, m.e01 as int, m.e02 as int, m.e10 as int, m.e11 as int, m.e12 as int, m.e30 as int, m.e31 as int, m.e32 as int)) as i128,
        e33: (det3_spec(m.e00 as int, m.e01 as int, m.e02 as int, m.e10 as int, m.e11 as int, m.e12 as int, m.e20 as int, m.e21 as int, m.e22 as int)) as i128,
    }
}

/// The determinant, by cofactor expansion along the first row.
pub open spec fn m4_det_spec(m: Mat4) -> int {
    (m.e00 as int) * det3_spec(m.e11 as int, m.e12 as int, m.e13 as int, m.e21 as int, m.e22 as int, m.e23 as int, m.e31 as int, m.e32 as int, m.e33 as int) - (m.e01 as int) * det3_spec(m.e10 as int, m.e12 as int, m.e13 as int, m.e20 as int, m.e22 as int, m.e23 as int, m.e30 as int, m.e32 as int, m.e33 as int) + (m.e02 as int) * det3_spec(m.e10 as int, m.e11 as int, m.e13 as int, m.e20 as int, m.e21 as int, m.e23 as int, m.e30 as int, m.e31 as int, m.e33 as int) - (m.e03 as int) * det3_spec(m.e10 as int, m.e11 as int, m.e12 as int, m.e20 as int, m.e21 as int, m.e22 as int, m.e30 as int, m.e31 as int, m.e32 as int)
}

/// The matrix applied to a homogeneous vector, without rescaling.
pub open spec fn m4_apply_spec(m: Mat4, v: Vec4) -> Vec4 {
    Vec4 {
        x: dot4_spec(m.e00 as int, m.e01 as int, m.e02 as int, m.e03 as int, v.x as int,
            v.y as int, v.z as int, v.w as int) as i128,
        y: dot4_spec(m.e10 as int, m.e11 as int, m.e12 as int, m.e13 as int, v.x as int,
            v.y as int, v.z as int, v.w as int) as i128,
        z: dot4_spec(m.e20 as int, m.e21 as int, m.e22 as int, m.e23 as int, v.x as int,
            v.y as int, v.z as int, v.w as int) as i128,
        w: dot4_spec(m.e30 as int, m.e31 as int, m.e32 as int, m.e33 as int, v.x as int,
            v.y as int, v.z as int, v.w as int) as i128,
    }
}


/// The dot of four entry pairs at chain scale.
fn dot4_s(a0: i128, a1: i128, a2: i128, a3: i128, b0: i128, b1: i128, b2: i128, b3: i128) -> (r:
    i128)
    requires
        -0x400000000 <= a0 <= 0x400000000,
        -0x400000000 <= a1 <= 0x400000000,
        -0x400000000 <= a2 <= 0x400000000,
        -0x400000000 <= a3 <= 0x400000000,
        -0x400000000 <= b0 <= 0x400000000,
        -0x400000000 <= b1 <= 0x400000000,
        -0x400000000 <= b2 <= 0x400000000,
        -0x400000000 <= b3 <= 0x400000000,
    ensures
        r == dot4_spec(a0 as int, a1 as int, a2 as int, a3 as int, b0 as int, b1 as int,
            b2 as int, b3 as int),
        -0x40000000000000000000 <= r <= 0x40000000000000000000,
{
    proof {
        assert(-0x10000000000000000000 <= a0 * b0 <= 0x10000000000000000000) by (nonlinear_arith)
            requires
                -0x400000000 <= a0 <= 0x400000000,
                -0x400000000 <= b0 <= 0x400000000,
        ;
        assert(-0x10000000000000000000 <= a1 * b1 <= 0x10000000000000000000) by (nonlinear_arith)
            requires
                -0x400000000 <= a1 <= 0x400000000,
                -0x400000000 <= b1 <= 0x400000000,
        ;
        assert(-0x10000000000000000000 <= a2 * b2 <= 0x10000000000000000000) by (nonlinear_arith)
            requires
                -0x400000000 <= a2 <= 0x400000000,
                -0x400000000 <= b2 <= 0x400000000,
        ;
        assert(-0x10000000000000000000 <= a3 * b3 <= 0x10000000000000000000) by (nonlinear_arith)
            requires
                -0x400000000 <= a3 <= 0x400000000,
                -0x400000000 <= b3 <= 0x400000000,
        ;
    }
    a0 * b0 + a1 * b1 + a2 * b2 + a3 * b3
}

/// One rescaled product entry.
fn mul_s_entry(a0: i128, a1: i128, a2: i128, a3: i128, b0: i128, b1: i128, b2: i128, b3: i128)
    -> (r: i128)
    requires
        -0x400000000 <= a0 <= 0x400000000,
        -0x400000000 <= a1 <= 0x400000000,
        -0x400000000 <= a2 <= 0x400000000,
        -0x400000000 <= a3 <= 0x400000000,
        -0x400000000 <= b0 <= 0x400000000,
        -0x400000000 <= b1 <= 0x400000000,
        -0x400000000 <= b2 <= 0x400000000,
        -0x400000000 <= b3 <= 0x400000000,
    ensures
        r == tdiv(dot4_spec(a0 as int, a1 as int, a2 as int, a3 as int, b0 as int, b1 as int,
            b2 as int, b3 as int), SCALE as int),
        -0x4000000000000000 <= r <= 0x4000000000000000,
{
    let s = dot4_s(a0, a1, a2, a3, b0, b1, b2, b3);
    proof {
        lemma_tdiv_shrink(s as int, 0x40000000000000000000, SCALE as int);
    }
    div_wide(s, SCALE as i128)
}


/// Multiplies two chain matrices, rescaling by `SCALE`.
pub fn m4_mul_s(a: &Mat4, b: &Mat4) -> (r: Mat4)
    requires
        m4_bounded(*a, 0x400000000),
        m4_bounded(*b, 0x400000000),
    ensures
        r == m4_mul_s_spec(*a, *b),
        m4_bounded(r, 0x4000000000000000),
{
    let e00 = mul_s_entry(a.e00, a.e01, a.e02, a.e03, b.e00, b.e10, b.e20, b.e30);
    let e01 = mul_s_entry(a.e00, a.e01, a.e02, a.e03, b.e01, b.e11, b.e21, b.e31);
    let e02 = mul_s_entry(a.e00, a.e01, a.e02, a.e03, b.e02, b.e12, b.e22, b.e32);
    let e03 = mul_s_entry(a.e00, a.e01, a.e02, a.e03, b.e03, b.e13, b.e23, b.e33);
    let e10 = mul_s_entry(a.e10, a.e11, a.e12, a.e13, b.e00, b.e10, b.e20, b.e30);
    let e11 = mul_s_entry(a.e10, a.e11, a.e12, a.e13, b.e01, b.e11, b.e21, b.e31);
    let e12 = mul_s_entry(a.e10, a.e11, a.e12, a.e13, b.e02, b.e12, b.e22, b.e32);
    let e13 = mul_s_entry(a.e10, a.e11, a.e12, a.e13, b.e03, b.e13, b.e23, b.e33);
    let e20 = mul_s_entry(a.e20, a.e21, a.e22, a.e23, b.e00, b.e10, b.e20, b.e30);
    let e21 = mul_s_entry(a.e20, a.e21, a.e22, a.e23, b.e01, b.e11, b.e21, b.e31);
    let e22 = mul_s_entry(a.e20, a.e21, a.e22, a.e23, b.e02, b.e12, b.e22, b.e32);
    let e23 = mul_s_entry(a.e20, a.e21, a.e22, a.e23, b.e03, b.e13, b.e23, b.e33);
    let e30 = mul_s_entry(a.e30, a.e31, a.e32, a.e33, b.e00, b.e10, b.e20, b.e30);
    let e31 = mul_s_entry(a.e30, a.e31, a.e32, a.e33, b.e01, b.e11, b.e21, b.e31);
    let e32 = mul_s_entry(a.e30, a.e31, a.e32, a.e33, b.e02, b.e12, b.e22, b.e32);
    let e33 = mul_s_entry(a.e30, a.e31, a.e32, a.e33, b.e03, b.e13, b.e23, b.e33);
    Mat4 { e00, e01, e02, e03, e10, e11, e12, e13, e20, e21, e22, e23, e30, e31, e32, e33 }
}


/// A signed 2x2 block, `a * b - c * d`.
fn sub2(a: i128, b: i128, c: i128, d: i128) -> (r: i128)
    requires
        -0x10000000 <= a <= 0x10000000,
        -0x10000000 <= b <= 0x10000000,
        -0x10000000 <= c <= 0x10000000,
        -0x10000000 <= d <= 0x10000000,
    ensures
        r == a * b - c * d,
        -0x200000000000000 <= r <= 0x200000000000000,
{
    proof {
        assert(-0x100000000000000 <= a * b <= 0x100000000000000) by (nonlinear_arith)
            requires
                -0x10000000 <= a <= 0x10000000,
                -0x10000000 <= b <= 0x10000000,
        ;
        assert(-0x100000000000000 <= c * d <= 0x100000000000000) by (nonlinear_arith)
            requires
                -0x10000000 <= c <= 0x10000000,
                -0x10000000 <= d <= 0x10000000,
        ;
    }
    a * b - c * d
}

/// A 3x3 determinant of bounded entries.
fn det3(a: i128, b: i128, c: i128, d: i128, e: i128, f: i128, g: i128, h: i128, i: i128) -> (r:
    i128)
    requires
        -0x10000000 <= a <= 0x10000000,
        -0x10000000 <= b <= 0x10000000,
        -0x10000000 <= c <= 0x10000000,
        -0x10000000 <= d <= 0x10000000,
        -0x10000000 <= e <= 0x10000000,
        -0x10000000 <= f <= 0x10000000,
        -0x10000000 <= g <= 0x10000000,
        -0x10000000 <= h <= 0x10000000,
        -0x10000000 <= i <= 0x10000000,
    ensures
        r == det3_spec(a as int, b as int, c as int, d as int, e as int, f as int, g as int,
            h as int, i as int),
        -0x6000000000000000000000 <= r <= 0x6000000000000000000000,
{
    let s1 = sub2(e, i, f, h);
    let s2 = sub2(d, i, f, g);
    let s3 = sub2(d, h, e, g);
    proof {
        assert(-0x2000000000000000000000 <= a * s1 <= 0x2000000000000000000000)
            by (nonlinear_arith)
            requires
                -0x10000000 <= a <= 0x10000000,
                -0x200000000000000 <= s1 <= 0x200000000000000,
        ;
        assert(-0x2000000000000000000000 <= b * s2 <= 0x2000000000000000000000)
            by (nonlinear_arith)
            requires
                -0x10000000 <= b <= 0x10000000,
                -0x200000000000000 <= s2 <= 0x200000000000000,
        ;
        assert(-0x2000000000000000000000 <= c * s3 <= 0x2000000000000000000000)
            by (nonlinear_arith)
            requires
                -0x10000000 <= c <= 0x10000000,
                -0x200000000000000 <= s3 <= 0x200000000000000,
        ;
    }
    a * s1 - b * s2 + c * s3
}


/// The adjugate of a bounded chain matrix.
pub fn m4_adj(m: &Mat4) -> (r: Mat4)
    requires
        m4_bounded(*m, 0x10000000),
    ensures
        r == m4_adj_spec(*m),
        m4_bounded(r, 0x6000000000000000000000),
{
    let e00 = det3(m.e11, m.e12, m.e13, m.e21, m.e22, m.e23, m.e31, m.e32, m.e33);
    let e01 = -det3(m.e01, m.e02, m.e03, m.e21, m.e22, m.e23, m.e31, m.e32, m.e33);
    let e02 = det3(m.e01, m.e02, m.e03, m.e11, m.e12, m.e13, m.e31, m.e32, m.e33);
    let e03 = -det3(m.e01, m.e02, m.e03, m.e11, m.e12, m.e13, m.e21, m.e22, m.e23);
    let e10 = -det3(m.e10, m.e12, m.e13, m.e20, m.e22, m.e23, m.e30, m.e32, m.e33);
    let e11 = det3(m.e00, m.e02, m.e03, m.e20, m.e22, m.e23, m.e30, m.e32, m.e33);
    let e12 = -det3(m.e00, m.e02, m.e03, m.e10, m.e12, m.e13, m.e30, m.e32, m.e33);
    let e13 = det3(m.e00, m.e02, m.e03, m.e10, m.e12, m.e13, m.e20, m.e22, m.e23);
    let e20 = det3(m.e10, m.e11, m.e13, m.e20, m.e21, m.e23, m.e30, m.e31, m.e33);
    let e21 = -det3(m.e00, m.e01, m.e03, m.e20, m.e21, m.e23, m.e30, m.e31, m.e33);
    let e22 = det3(m.e00, m.e01, m.e03, m.e10, m.e11, m.e13, m.e30, m.e31, m.e33);
    let e23 = -det3(m.e00, m.e01, m.e03, m.e10, m.e11, m.e13, m.e20, m.e21, m.e23);
    let e30 = -det3(m.e10, m.e11, m.e12, m.e20, m.e21, m.e22, m.e30, m.e31, m.e32);
    let e31 = det3(m.e00, m.e01, m.e02, m.e20, m.e21, m.e22, m.e30, m.e31, m.e32);
    let e32 = -det3(m.e00, m.e01, m.e02, m.e10, m.e11, m.e12, m.e30, m.e31, m.e32);
    let e33 = det3(m.e00, m.e01, m.e02, m.e10, m.e11, m.e12, m.e20, m.e21, m.e22);
    Mat4 { e00, e01, e02, e03, e10, e11, e12, e13, e20, e21, e22, e23, e30, e31, e32, e33 }
}


/// The determinant of a bounded chain matrix.
pub fn m4_det(m: &Mat4) -> (r: i128)
    requires
        m4_bounded(*m, 0x10000000),
    ensures
        r == m4_det_spec(*m),
{
    let c0 = det3(m.e11, m.e12, m.e13, m.e21, m.e22, m.e23, m.e31, m.e32, m.e33);
    let c1 = det3(m.e10, m.e12, m.e13, m.e20, m.e22, m.e23, m.e30, m.e32, m.e33);
    let c2 = det3(m.e10, m.e11, m.e13, m.e20, m.e21, m.e23, m.e30, m.e31, m.e33);
    let c3 = det3(m.e10, m.e11, m.e12, m.e20, m.e21, m.e22, m.e30, m.e31, m.e32);
    proof {
        assert(-0x60000000000000000000000000000 <= m.e00 * c0
            <= 0x60000000000000000000000000000) by (nonlinear_arith)
            requires
                -0x10000000 <= m.e00 <= 0x10000000,
                -0x6000000000000000000000 <= c0 <= 0x6000000000000000000000,
        ;
    }
    proof {
        assert(-0x60000000000000000000000000000 <= m.e01 * c1
            <= 0x60000000000000000000000000000) by (nonlinear_arith)
            requires
                -0x10000000 <= m.e01 <= 0x10000000,
                -0x6000000000000000000000 <= c1 <= 0x6000000000000000000000,
        ;
    }
    proof {
        assert(-0x60000000000000000000000000000 <= m.e02 * c2
            <= 0x60000000000000000000000000000) by (nonlinear_arith)
            requires
                -0x10000000 <= m.e02 <= 0x10000000,
                -0x6000000000000000000000 <= c2 <= 0x6000000000000000000000,
        ;
    }
    proof {
        assert(-0x60000000000000000000000000000 <= m.e03 * c3
            <= 0x60000000000000000000000000000) by (nonlinear_arith)
            requires
                -0x10000000 <= m.e03 <= 0x10000000,
                -0x6000000000000000000000 <= c3 <= 0x6000000000000000000000,
        ;
    }
    m.e00 * c0 - m.e01 * c1 + m.e02 * c2 - m.e03 * c3
}


/// One row of a wide matrix application.
fn apply_row(a0: i128, a1: i128, a2: i128, a3: i128, v: &Vec4) -> (r: i128)
    requires
        -0x6000000000000000000000 <= a0 <= 0x6000000000000000000000,
        -0x6000000000000000000000 <= a1 <= 0x6000000000000000000000,
        -0x6000000000000000000000 <= a2 <= 0x6000000000000000000000,
        -0x6000000000000000000000 <= a3 <= 0x6000000000000000000000,
        -0x100000000 <= v.x <= 0x100000000,
        -0x100000000 <= v.y <= 0x100000000,
        -0x100000000 <= v.z <= 0x100000000,
        -0x100000000 <= v.w <= 0x100000000,
    ensures
        r == dot4_spec(a0 as int, a1 as int, a2 as int, a3 as int, v.x as int, v.y as int,
            v.z as int, v.w as int),
        -0x1800000000000000000000000000000 <= r <= 0x1800000000000000000000000000000,
{
    proof {
        assert(-0x600000000000000000000000000000 <= a0 * v.x <= 0x600000000000000000000000000000)
            by (nonlinear_arith)
            requires
                -0x6000000000000000000000 <= a0 <= 0x6000000000000000000000,
                -0x100000000 <= v.x <= 0x100000000,
        ;
        assert(-0x600000000000000000000000000000 <= a1 * v.y <= 0x600000000000000000000000000000)
            by (nonlinear_arith)
            requires
                -0x6000000000000000000000 <= a1 <= 0x6000000000000000000000,
                -0x100000000 <= v.y <= 0x100000000,
        ;
        assert(-0x600000000000000000000000000000 <= a2 * v.z <= 0x600000000000000000000000000000)
            by (nonlinear_arith)
            requires
                -0x6000000000000000000000 <= a2 <= 0x6000000000000000000000,
                -0x100000000 <= v.z <= 0x100000000,
        ;
        assert(-0x600000000000000000000000000000 <= a3 * v.w <= 0x600000000000000000000000000000)
            by (nonlinear_arith)
            requires
                -0x6000000000000000000000 <= a3 <= 0x6000000000000000000000,
                -0x100000000 <= v.w <= 0x100000000,
        ;
    }
    a0 * v.x + a1 * v.y + a2 * v.z + a3 * v.w
}

/// Applies a wide matrix (such as an adjugate) to a small homogeneous
/// vector.
pub fn m4_apply(m: &Mat4, v: &Vec4) -> (r: Vec4)
    requires
        m4_bounded(*m, 0x6000000000000000000000),
        -0x100000000 <= v.x <= 0x100000000,
        -0x100000000 <= v.y <= 0x100000000,
        -0x100000000 <= v.z <= 0x100000000,
        -0x100000000 <= v.w <= 0x100000000,
    ensures
        r == m4_apply_spec(*m, *v),
        -0x1800000000000000000000000000000 <= r.x <= 0x1800000000000000000000000000000,
        -0x1800000000000000000000000000000 <= r.y <= 0x1800000000000000000000000000000,
        -0x1800000000000000000000000000000 <= r.z <= 0x1800000000000000000000000000000,
        -0x1800000000000000000000000000000 <= r.w <= 0x1800000000000000000000000000000,
{
    let x = apply_row(m.e00, m.e01, m.e02, m.e03, v);
    let y = apply_row(m.e10, m.e11, m.e12, m.e13, v);
    let z = apply_row(m.e20, m.e21, m.e22, m.e23, v);
    let w = apply_row(m.e30, m.e31, m.e32, m.e33, v);
    Vec4 { x, y, z, w }
}

/// The all-zero matrix.
pub fn m4_zero_exec() -> (r: Mat4)
    ensures
        r == m4_zero(),
{
    Mat4 {
        e00: 0, e01: 0, e02: 0, e03: 0,
        e10: 0, e11: 0, e12: 0, e13: 0,
        e20: 0, e21: 0, e22: 0, e23: 0,
        e30: 0, e31: 0, e32: 0, e33: 0,
    }
}

/// Reports whether all sixteen entries lie within `[-b, b]`.
pub fn m4_check_bounded(m: &Mat4, b: i128) -> (r: bool)
    requires
        b >= 0,
    ensures
        r == m4_bounded(*m, b as int),
{
    -b <= m.e00 && m.e00 <= b && -b <= m.e01 && m.e01 <= b && -b <= m.e02 && m.e02 <= b
        && -b <= m.e03 && m.e03 <= b && -b <= m.e10 && m.e10 <= b && -b <= m.e11 && m.e11 <= b
        && -b <= m.e12 && m.e12 <= b && -b <= m.e13 && m.e13 <= b && -b <= m.e20 && m.e20 <= b
        && -b <= m.e21 && m.e21 <= b && -b <= m.e22 && m.e22 <= b && -b <= m.e23 && m.e23 <= b
        && -b <= m.e30 && m.e30 <= b && -b <= m.e31 && m.e31 <= b && -b <= m.e32 && m.e32 <= b
        && -b <= m.e33 && m.e33 <= b
}





/// One entry of a wide raw product.
fn wide_entry(a0: i128, a1: i128, a2: i128, a3: i128, b0: i128, b1: i128, b2: i128, b3: i128)
    -> (r: i128)
    requires
        -0x10000000 <= a0 <= 0x10000000,
        -0x10000000 <= a1 <= 0x10000000,
        -0x10000000 <= a2 <= 0x10000000,
        -0x10000000 <= a3 <= 0x10000000,
        -0x6000000000000000000000 <= b0 <= 0x6000000000000000000000,
        -0x6000000000000000000000 <= b1 <= 0x6000000000000000000000,
        -0x6000000000000000000000 <= b2 <= 0x6000000000000000000000,
        -0x6000000000000000000000 <= b3 <= 0x6000000000000000000000,
    ensures
        r == dot4_spec(a0 as int, a1 as int, a2 as int, a3 as int, b0 as int, b1 as int,
            b2 as int, b3 as int),
{
    proof {
        assert(-0x60000000000000000000000000000 <= a0 * b0 <= 0x60000000000000000000000000000)
            by (nonlinear_arith)
            requires
                -0x10000000 <= a0 <= 0x10000000,
                -0x6000000000000000000000 <= b0 <= 0x6000000000000000000000,
        ;
        assert(-0x60000000000000000000000000000 <= a1 * b1 <= 0x60000000000000000000000000000)
            by (nonlinear_arith)
            requires
                -0x10000000 <= a1 <= 0x10000000,
                -0x6000000000000000000000 <= b1 <= 0x6000000000000000000000,
        ;
        assert(-0x60000000000000000000000000000 <= a2 * b2 <= 0x60000000000000000000000000000)
            by (nonlinear_arith)
            requires
                -0x10000000 <= a2 <= 0x10000000,
                -0x6000000000000000000000 <= b2 <= 0x6000000000000000000000,
        ;
        assert(-0x60000000000000000000000000000 <= a3 * b3 <= 0x60000000000000000000000000000)
            by (nonlinear_arith)
            requires
                -0x10000000 <= a3 <= 0x10000000,
                -0x6000000000000000000000 <= b3 <= 0x6000000000000000000000,
        ;
    }
    a0 * b0 + a1 * b1 + a2 * b2 + a3 * b3
}

/// The raw product of a chain matrix with a wide matrix (such as an
/// adjugate).
pub fn m4_mul_wide(a: &Mat4, b: &Mat4) -> (r: Mat4)
    requires
        m4_bounded(*a, 0x10000000),
        m4_bounded(*b, 0x6000000000000000000000),
    ensures
        r == m4_mul_raw_spec(*a, *b),
{
    let e00 = wide_entry(a.e00, a.e01, a.e02, a.e03, b.e00, b.e10, b.e20, b.e30);
    let e01 = wide_entry(a.e00, a.e01, a.e02, a.e03, b.e01, b.e11, b.e21, b.e31);
    let e02 = wide_entry(a.e00, a.e01, a.e02, a.e03, b.e02, b.e12, b.e22, b.e32);
    let e03 = wide_entry(a.e00, a.e01, a.e02, a.e03, b.e03, b.e13, b.e23, b.e33);
    let e10 = wide_entry(a.e10, a.e11, a.e12, a.e13, b.e00, b.e10, b.e20, b.e30);
    let e11 = wide_entry(a.e10, a.e11, a.e12, a.e13, b.e01, b.e11, b.e21, b.e31);
    let e12 = wide_entry(a.e10, a.e11, a.e12, a.e13, b.e02, b.e12, b.e22, b.e32);
    let e13 = wide_entry(a.e10, a.e11, a.e12, a.e13, b.e03, b.e13, b.e23, b.e33);
    let e20 = wide_entry(a.e20, a.e21, a.e22, a.e23, b.e00, b.e10, b.e20, b.e30);
    let e21 = wide_entry(a.e20, a.e21, a.e22, a.e23, b.e01, b.e11, b.e21, b.e31);
    let e22 = wide_entry(a.e20, a.e21, a.e22, a.e23, b.e02, b.e12, b.e22, b.e32);
    let e23 = wide_entry(a.e20, a.e21, a.e22, a.e23, b.e03, b.e13, b.e23, b.e33);
    let e30 = wide_entry(a.e30, a.e31, a.e32, a.e33, b.e00, b.e10, b.e20, b.e30);
    let e31 = wide_entry(a.e30, a.e31, a.e32, a.e33, b.e01, b.e11, b.e21, b.e31);
    let e32 = wide_entry(a.e30, a.e31, a.e32, a.e33, b.e02, b.e12, b.e22, b.e32);
    let e33 = wide_entry(a.e30, a.e31, a.e32, a.e33, b.e03, b.e13, b.e23, b.e33);
    Mat4 { e00, e01, e02, e03, e10, e11, e12, e13, e20, e21, e22, e23, e30, e31, e32, e33 }
}

/// Reports whether two matrices are equal entry by entry.
pub fn m4_eq(a: &Mat4, b: &Mat4) -> (r: bool)
    ensures
        r == (*a == *b),
{
    let same = a.e00 == b.e00 && a.e01 == b.e01 && a.e02 == b.e02 && a.e03 == b.e03 && a.e10
        == b.e10 && a.e11 == b.e11 && a.e12 == b.e12 && a.e13 == b.e13 && a.e20 == b.e20 && a.e21
        == b.e21 && a.e22 == b.e22 && a.e23 == b.e23 && a.e30 == b.e30 && a.e31 == b.e31 && a.e32
        == b.e32 && a.e33 == b.e33;
    proof {
        if same {
            assert(*a =~= *b);
        }
    }
    same
}

/// Builds the scalar matrix `k * I`.
pub fn m4_scalar_exec(k: i128) -> (r: Mat4)
    ensures
        r == m4_scalar(k as int),
{
    Mat4 {
        e00: k, e01: 0, e02: 0, e03: 0,
        e10: 0, e11: k, e12: 0, e13: 0,
        e20: 0, e21: 0, e22: k, e23: 0,
        e30: 0, e31: 0, e32: 0, e33: k,
    }
}

} // verus!
