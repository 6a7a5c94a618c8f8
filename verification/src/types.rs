//! Points, directions and colors: triples of fixed-point scalars.
//!
//! One struct serves all three roles, as the rendering math never
//! distinguishes them.  Dot products and squared norms are returned as
//! wide integers at denominator `SCALE * SCALE`; cross products and
//! componentwise scaling rescale back to denominator `SCALE`.

use vstd::prelude::*;
use crate::fixed::{tdiv, sqrt_floor, div_wide, isqrt, SCALE};

verus! {

/// A point, direction or color: three scalars at denominator [`SCALE`].
#[derive(Clone, Copy, Debug, PartialEq, Eq, Structural)]
pub struct Vec3 {
    pub x: i64,
    pub y: i64,
    pub z: i64,
}

/// A color; channel `SCALE` is full intensity.
pub type Color = Vec3;

/// A position in space.
pub type Pnt3 = Vec3;

/// Largest coordinate magnitude the geometry admits; keeps every dot
/// product and cross product free of overflow.
pub const VMAX: i64 = 0x100000000000;

// VMAX is 2^44: about 2.6 * 10^8 in real units, comfortably past the
// largest scene coordinate while 3 * (VMAX)^2 stays far below i128::MAX.

/// All three coordinates within `[-b, b]`.
pub open spec fn bounded(v: Vec3, b: int) -> bool {
    &&& -b <= v.x <= b
    &&& -b <= v.y <= b
    &&& -b <= v.z <= b
}

/// Componentwise sum.
pub open spec fn add_spec(a: Vec3, b: Vec3) -> Vec3 {
    Vec3 { x: (a.x + b.x) as i64, y: (a.y + b.y) as i64, z: (a.z + b.z) as i64 }
}

/// Componentwise difference.
pub open spec fn sub_spec(a: Vec3, b: Vec3) -> Vec3 {
    Vec3 { x: (a.x - b.x) as i64, y: (a.y - b.y) as i64, z: (a.z - b.z) as i64 }
}

/// Dot product at denominator `SCALE * SCALE`.
pub open spec fn dot_spec(a: Vec3, b: Vec3) -> int {
    a.x * b.x + a.y * b.y + a.z * b.z
}

/// Squared norm at denominator `SCALE * SCALE`.
pub open spec fn norm_sq_spec(v: Vec3) -> int {
    dot_spec(v, v)
}

/// Cross product, rescaled back to denominator `SCALE`.
pub open spec fn cross_spec(a: Vec3, b: Vec3) -> Vec3 {
    Vec3 {
        x: tdiv(a.y * b.z - a.z * b.y, SCALE as int) as i64,
        y: tdiv(a.z * b.x - a.x * b.z, SCALE as int) as i64,
        z: tdiv(a.x * b.y - a.y * b.x, SCALE as int) as i64,
    }
}

/// Product with a scalar, rescaled back to denominator `SCALE`.
pub open spec fn scale_spec(v: Vec3, k: int) -> Vec3 {
    Vec3 {
        x: tdiv(v.x * k, SCALE as int) as i64,
        y: tdiv(v.y * k, SCALE as int) as i64,
        z: tdiv(v.z * k, SCALE as int) as i64,
    }
}

/// Componentwise product of unit-scale triples, rescaled back to
/// denominator `SCALE`.
pub open spec fn mul_comp_spec(a: Vec3, b: Vec3) -> Vec3 {
    Vec3 {
        x: tdiv(a.x * b.x, SCALE as int) as i64,
        y: tdiv(a.y * b.y, SCALE as int) as i64,
        z: tdiv(a.z * b.z, SCALE as int) as i64,
    }
}

/// Each coordinate clamped into `[lo, hi]`.
pub open spec fn clamp_vec_spec(v: Vec3, lo: int, hi: int) -> Vec3 {
    Vec3 {
        x: crate::fixed::clamp_spec(v.x as int, lo, hi) as i64,
        y: crate::fixed::clamp_spec(v.y as int, lo, hi) as i64,
        z: crate::fixed::clamp_spec(v.z as int, lo, hi) as i64,
    }
}

/// Componentwise negation.
pub open spec fn neg_spec(v: Vec3) -> Vec3 {
    Vec3 { x: (-v.x) as i64, y: (-v.y) as i64, z: (-v.z) as i64 }
}

/// The normalized vector: each coordinate divided by the floor square
/// root of the squared norm, rescaled by `SCALE`.
pub open spec fn normalize_spec(v: Vec3) -> Vec3 {
    let len = sqrt_floor(norm_sq_spec(v));
    Vec3 {
        x: tdiv(v.x * SCALE, len) as i64,
        y: tdiv(v.y * SCALE, len) as i64,
        z: tdiv(v.z * SCALE, len) as i64,
    }
}

impl Vec3 {
    /// Builds a triple from raw fixed-point coordinates.
    pub fn new(x: i64, y: i64, z: i64) -> (r: Vec3)
        ensures
            r == (Vec3 { x, y, z }),
    {
        Vec3 { x, y, z }
    }

    /// The zero triple.
    pub fn zero() -> (r: Vec3)
        ensures
            r == (Vec3 { x: 0i64, y: 0i64, z: 0i64 }),
    {
        Vec3 { x: 0, y: 0, z: 0 }
    }

    /// Componentwise sum.
    pub fn add(&self, o: &Vec3) -> (r: Vec3)
        requires
            bounded(*self, 0x2000000000000000),
            bounded(*o, 0x2000000000000000),
        ensures
            r == add_spec(*self, *o),
            r.x == self.x + o.x,
            r.y == self.y + o.y,
            r.z == self.z + o.z,
    {
        Vec3 { x: self.x + o.x, y: self.y + o.y, z: self.z + o.z }
    }

    /// Componentwise difference.
    pub fn sub(&self, o: &Vec3) -> (r: Vec3)
        requires
            bounded(*self, 0x2000000000000000),
            bounded(*o, 0x2000000000000000),
        ensures
            r == sub_spec(*self, *o),
            r.x == self.x - o.x,
            r.y == self.y - o.y,
            r.z == self.z - o.z,
    {
        Vec3 { x: self.x - o.x, y: self.y - o.y, z: self.z - o.z }
    }

    /// Componentwise negation.
    pub fn neg(&self) -> (r: Vec3)
        requires
            bounded(*self, 0x2000000000000000),
        ensures
            r == neg_spec(*self),
            r.x == -self.x && r.y == -self.y && r.z == -self.z,
    {
        Vec3 { x: -self.x, y: -self.y, z: -self.z }
    }

    /// Dot product at denominator `SCALE * SCALE`.
    pub fn dot(&self, o: &Vec3) -> (r: i128)
        requires
            bounded(*self, 0x1000000000000000),
            bounded(*o, 0x1000000000000000),
        ensures
            r == dot_spec(*self, *o),
    {
        proof {
            lemma_dot_bound(*self, *o, 0x1000000000000000, 0x1000000000000000);
        }
        let px = wide_mul(self.x, o.x);
        let py = wide_mul(self.y, o.y);
        let pz = wide_mul(self.z, o.z);
        px + py + pz
    }

    /// Squared norm at denominator `SCALE * SCALE`.
    pub fn norm_sq(&self) -> (r: i128)
        requires
            bounded(*self, 0x1000000000000000),
        ensures
            r == norm_sq_spec(*self),
            r >= 0,
    {
        proof {
            lemma_norm_sq_nonneg(*self);
        }
        self.dot(self)
    }

    /// Cross product of unit-scale vectors, rescaled back to denominator
    /// `SCALE`.
    pub fn cross(&self, o: &Vec3) -> (r: Vec3)
        requires
            bounded(*self, 0x20000),
            bounded(*o, 0x20000),
        ensures
            r == cross_spec(*self, *o),
            bounded(r, 0x80000),
    {
        let cx = cross_term(self.y, o.z, self.z, o.y);
        let cy = cross_term(self.z, o.x, self.x, o.z);
        let cz = cross_term(self.x, o.y, self.y, o.x);
        Vec3 { x: cx, y: cy, z: cz }
    }

    /// Product of a unit-scale vector with a scalar, rescaled back to
    /// denominator `SCALE`.
    pub fn scale(&self, k: i64) -> (r: Vec3)
        requires
            bounded(*self, 0x20000),
            -0x2000000000000 <= k <= 0x2000000000000,
        ensures
            r == scale_spec(*self, k as int),
            bounded(r, 0x4000000000000),
    {
        let rx = scale_term(self.x, k);
        let ry = scale_term(self.y, k);
        let rz = scale_term(self.z, k);
        Vec3 { x: rx, y: ry, z: rz }
    }

    /// Componentwise product of unit-scale triples, rescaled back to
    /// denominator `SCALE`.
    pub fn mul_comp(&self, o: &Vec3) -> (r: Vec3)
        requires
            bounded(*self, 0x20000),
            bounded(*o, 0x20000),
        ensures
            r == mul_comp_spec(*self, *o),
            bounded(r, 0x40000),
    {
        let rx = mul_comp_term(self.x, o.x);
        let ry = mul_comp_term(self.y, o.y);
        let rz = mul_comp_term(self.z, o.z);
        Vec3 { x: rx, y: ry, z: rz }
    }

    /// Each coordinate clamped into `[lo, hi]`.
    pub fn clamp_vec(&self, lo: i64, hi: i64) -> (r: Vec3)
        requires
            lo <= hi,
        ensures
            r == clamp_vec_spec(*self, lo as int, hi as int),
            bounded(r, if -(lo as int) > hi as int { -(lo as int) } else { hi as int }),
    {
        Vec3 {
            x: crate::fixed::clamp_fx(self.x, lo, hi),
            y: crate::fixed::clamp_fx(self.y, lo, hi),
            z: crate::fixed::clamp_fx(self.z, lo, hi),
        }
    }

    /// Normalizes to (approximately) unit length; exact on vectors whose
    /// squared norm is exactly one, per [`lemma_normalize_exact_unit`].
    pub fn normalize(&self) -> (r: Vec3)
        requires
            bounded(*self, VMAX as int),
            norm_sq_spec(*self) > 0,
        ensures
            r == normalize_spec(*self),
            bounded(r, SCALE as int),
    {
        let n2 = self.norm_sq();
        proof {
            lemma_dot_bound(*self, *self, VMAX as int, VMAX as int);
            assert((1u128 << 126) == 0x40000000000000000000000000000000u128) by (bit_vector);
            assert((3 * (VMAX as int) * (VMAX as int)) < 0x40000000000000000000000000000000)
                by (nonlinear_arith);
            lemma_sqrt_floor(n2 as int);
        }
        let len_u = isqrt(n2 as u128);
        let len: i64 = len_u as i64;
        proof {
            let n2i = n2 as int;
            let l = sqrt_floor(n2i);
            assert(l * l <= n2i < (l + 1) * (l + 1));
            assert(l < 0x200000000000000) by (nonlinear_arith)
                requires
                    l * l <= n2i,
                    n2i <= 3 * (VMAX as int) * (VMAX as int),
                    l >= 0,
                    VMAX == 0x100000000000i64,
            ;
            if l == 0 {
                assert(n2i < (0 + 1) * (0 + 1));
                assert(false);
            }
            assert(self.x * self.x >= 0 && self.y * self.y >= 0 && self.z * self.z >= 0)
                by (nonlinear_arith);
            lemma_normalize_component_bound(self.x as int, n2i, l);
            lemma_normalize_component_bound(self.y as int, n2i, l);
            lemma_normalize_component_bound(self.z as int, n2i, l);
        }
        let rx = div_wide(wide_mul(self.x, SCALE), len as i128);
        let ry = div_wide(wide_mul(self.y, SCALE), len as i128);
        let rz = div_wide(wide_mul(self.z, SCALE), len as i128);
        Vec3 { x: rx as i64, y: ry as i64, z: rz as i64 }
    }
}

/// Widening product of two scalars; never overflows.
pub fn wide_mul(a: i64, b: i64) -> (r: i128)
    ensures
        r == a * b,
{
    proof {
        assert(-0x40000000000000000000000000000000 <= (a as int) * (b as int)
            <= 0x40000000000000000000000000000000) by (nonlinear_arith);
    }
    (a as i128) * (b as i128)
}

/// One cross-product component: `(a * b - c * d) / SCALE`.
fn cross_term(a: i64, b: i64, c: i64, d: i64) -> (r: i64)
    requires
        -0x20000 <= a <= 0x20000,
        -0x20000 <= b <= 0x20000,
        -0x20000 <= c <= 0x20000,
        -0x20000 <= d <= 0x20000,
    ensures
        r == tdiv(a * b - c * d, SCALE as int),
        -0x80000 <= r <= 0x80000,
{
    let pab = wide_mul(a, b);
    let pcd = wide_mul(c, d);
    proof {
        assert(-0x400000000 <= a * b <= 0x400000000) by (nonlinear_arith)
            requires
                -0x20000 <= a <= 0x20000,
                -0x20000 <= b <= 0x20000,
        ;
        assert(-0x400000000 <= c * d <= 0x400000000) by (nonlinear_arith)
            requires
                -0x20000 <= c <= 0x20000,
                -0x20000 <= d <= 0x20000,
        ;
        lemma_tdiv_shrink(a * b - c * d, 0x800000000, SCALE as int);
    }
    let wide: i128 = pab - pcd;
    let q = div_wide(wide, SCALE as i128);
    q as i64
}

/// One componentwise-product channel: `a * b / SCALE`.
fn mul_comp_term(a: i64, b: i64) -> (r: i64)
    requires
        -0x20000 <= a <= 0x20000,
        -0x20000 <= b <= 0x20000,
    ensures
        r == tdiv(a * b, SCALE as int),
        -0x40000 <= r <= 0x40000,
{
    let wide: i128 = wide_mul(a, b);
    proof {
        assert(-0x400000000 <= a * b <= 0x400000000) by (nonlinear_arith)
            requires
                -0x20000 <= a <= 0x20000,
                -0x20000 <= b <= 0x20000,
        ;
        lemma_tdiv_shrink(a * b, 0x400000000, SCALE as int);
    }
    let q = div_wide(wide, SCALE as i128);
    q as i64
}

/// One scaling component: `v * k / SCALE`.
fn scale_term(v: i64, k: i64) -> (r: i64)
    requires
        -0x20000 <= v <= 0x20000,
        -0x2000000000000 <= k <= 0x2000000000000,
    ensures
        r == tdiv(v * k, SCALE as int),
        -0x4000000000000 <= r <= 0x4000000000000,
{
    let wide: i128 = wide_mul(v, k);
    proof {
        assert(-0x40000000000000000 <= v * k <= 0x40000000000000000) by (nonlinear_arith)
            requires
                -0x20000 <= v <= 0x20000,
                -0x2000000000000 <= k <= 0x2000000000000,
        ;
        lemma_tdiv_shrink(v * k, 0x40000000000000000, SCALE as int);
    }
    let q = div_wide(wide, SCALE as i128);
    q as i64
}

/// A magnitude bound on a dividend gives the divided-down bound on the
/// truncating quotient.
pub proof fn lemma_tdiv_shrink(a: int, m: int, b: int)
    requires
        b > 0,
        m >= 0,
        -m <= a <= m,
    ensures
        -(m / b) <= tdiv(a, b) <= m / b,
{
    if a >= 0 {
        vstd::arithmetic::div_mod::lemma_div_is_ordered(a, m, b);
        assert(a / b >= 0) by (nonlinear_arith)
            requires
                a >= 0,
                b > 0,
        ;
    } else {
        vstd::arithmetic::div_mod::lemma_div_is_ordered(-a, m, b);
        assert((-a) / b >= 0) by (nonlinear_arith)
            requires
                -a >= 0,
                b > 0,
        ;
    }
}

/// Bounded coordinates bound each product and the whole dot product.
pub proof fn lemma_dot_bound(a: Vec3, b: Vec3, ma: int, mb: int)
    requires
        ma >= 0,
        mb >= 0,
        bounded(a, ma),
        bounded(b, mb),
    ensures
        -(3 * (ma * mb)) <= dot_spec(a, b) <= 3 * (ma * mb),
        -(ma * mb) <= a.x * b.x <= ma * mb,
        -(ma * mb) <= a.y * b.y <= ma * mb,
        -(ma * mb) <= a.z * b.z <= ma * mb,
{
    assert(-(ma * mb) <= a.x * b.x <= ma * mb) by (nonlinear_arith)
        requires
            -ma <= a.x <= ma,
            -mb <= b.x <= mb,
            ma >= 0,
            mb >= 0,
    ;
    assert(-(ma * mb) <= a.y * b.y <= ma * mb) by (nonlinear_arith)
        requires
            -ma <= a.y <= ma,
            -mb <= b.y <= mb,
            ma >= 0,
            mb >= 0,
    ;
    assert(-(ma * mb) <= a.z * b.z <= ma * mb) by (nonlinear_arith)
        requires
            -ma <= a.z <= ma,
            -mb <= b.z <= mb,
            ma >= 0,
            mb >= 0,
    ;
}

/// A squared norm is never negative.
pub proof fn lemma_norm_sq_nonneg(v: Vec3)
    ensures
        norm_sq_spec(v) >= 0,
{
    assert(v.x * v.x >= 0) by (nonlinear_arith);
    assert(v.y * v.y >= 0) by (nonlinear_arith);
    assert(v.z * v.z >= 0) by (nonlinear_arith);
}

/// A coordinate of a normalized vector lies in `[-SCALE, SCALE]`.
proof fn lemma_normalize_component_bound(c: int, n2: int, l: int)
    requires
        l >= 1,
        c * c <= n2,
        n2 < (l + 1) * (l + 1),
    ensures
        -(SCALE as int) <= tdiv(c * SCALE, l) <= SCALE as int,
{
    assert(-l <= c <= l) by (nonlinear_arith)
        requires
            c * c <= n2,
            n2 < (l + 1) * (l + 1),
            l >= 0,
    ;
    assert(-(l * SCALE) <= c * SCALE <= l * SCALE) by (nonlinear_arith)
        requires
            -l <= c <= l,
            SCALE == 65536i64,
    ;
    lemma_tdiv_shrink(c * SCALE, l * (SCALE as int), l);
    crate::fixed::lemma_tdiv_exact(SCALE as int, l);
    assert((l * (SCALE as int)) == (SCALE as int) * l) by (nonlinear_arith);
}

/// Normalizing keeps a vector whose squared norm is exactly one
/// unchanged: the normalization invariant is idempotent on unit input.
pub proof fn lemma_normalize_exact_unit(v: Vec3)
    requires
        norm_sq_spec(v) == (SCALE as int) * (SCALE as int),
    ensures
        normalize_spec(v) == v,
{
    let n2 = norm_sq_spec(v);
    lemma_sqrt_floor_unique_helper(n2);
    assert(sqrt_floor(n2) == SCALE as int);
    crate::fixed::lemma_tdiv_exact(v.x as int, SCALE as int);
    crate::fixed::lemma_tdiv_exact(v.y as int, SCALE as int);
    crate::fixed::lemma_tdiv_exact(v.z as int, SCALE as int);
}

/// `sqrt_floor(SCALE * SCALE) == SCALE`.
proof fn lemma_sqrt_floor_unique_helper(n2: int)
    requires
        n2 == (SCALE as int) * (SCALE as int),
    ensures
        sqrt_floor(n2) == SCALE as int,
{
    assert((SCALE as int) * (SCALE as int) == 4294967296) by (nonlinear_arith);
    assert((SCALE as int + 1) * (SCALE as int + 1) > 4294967296) by (nonlinear_arith);
    crate::fixed::lemma_sqrt_floor_unique(n2, SCALE as int);
}

use crate::fixed::lemma_sqrt_floor;

} // verus!
