//! Warp functions: mapping uniform unit-square samples to directional
//! distributions, with their probability densities.
//!
//! Angles are carried in radians at denominator `SCALE`, as the polar
//! formulas state them; the quadrant trigonometry consumes them as
//! fractions of a full turn.

use vstd::prelude::*;
use crate::fixed::{tdiv, sqrt_floor, div_wide, isqrt, SCALE};
use crate::types::{Vec3, wide_mul, lemma_tdiv_shrink};
use crate::trig::{cos_sin_turn_spec, cos_sin_turn};

verus! {

/// A quarter turn, `pi / 4`, at denominator [`SCALE`].
pub const QUARTER_PI_FX: i64 = 51471;

/// A full turn, `2 * pi`, at denominator [`SCALE`].
pub const TWO_PI_FX: i64 = 411774;

/// `1 / pi` at denominator [`SCALE`].
pub const INV_PI_FX: i64 = 20860;

/// `1 / (2 * pi)` at denominator [`SCALE`].
pub const INV_TWO_PI_FX: i64 = 10430;

/// `1 / (4 * pi)` at denominator [`SCALE`].
pub const INV_FOUR_PI_FX: i64 = 5215;

/// The directional distributions a sample pair can be warped to.
#[derive(Clone, Copy, Debug, PartialEq, Eq, Structural)]
#[allow(non_camel_case_types)]
pub enum WarpFunction {
    UniformHemisphere,
    UniformSphere,
    UniformDisk,
    ConcentricDisk,
    CosineHemisphere,
    UniformTriangle,
    Uniform_Square,
    Uniform_Cylinder,
    Uniform_Sphere_Cap,
    Phong_Hemisphere,
}

/// The four-region concentric square-to-disk map: radius, and the angle
/// in radians, both at denominator `SCALE`.
pub open spec fn concentric_spec(u1: int, u2: int) -> (int, int) {
    let sx = 2 * u1 - SCALE as int;
    let sy = 2 * u2 - SCALE as int;
    if sx == 0 && sy == 0 {
        (0int, 0int)
    } else {
        let rt = if sx >= -sy {
            if sx > sy {
                if sy > 0 {
                    (sx, tdiv(sy * SCALE, sx))
                } else {
                    (sx, 8 * (SCALE as int) + tdiv(sy * SCALE, sx))
                }
            } else {
                (sy, 2 * (SCALE as int) - tdiv(sx * SCALE, sy))
            }
        } else {
            if sx <= sy {
                (-sx, 4 * (SCALE as int) - tdiv(sy * SCALE, -sx))
            } else {
                (-sy, 6 * (SCALE as int) + tdiv(sx * SCALE, -sy))
            }
        };
        (rt.0, tdiv(rt.1 * (QUARTER_PI_FX as int), SCALE as int))
    }
}

/// A quotient of values with `|num| <= den` stays within one.
proof fn lemma_ratio_bound(num: int, den: int)
    requires
        1 <= den,
        -den <= num <= den,
    ensures
        -(SCALE as int) <= tdiv(num * SCALE, den) <= SCALE as int,
{
    assert(-(den * (SCALE as int)) <= num * SCALE <= den * (SCALE as int)) by (nonlinear_arith)
        requires
            1 <= den,
            -den <= num <= den,
    ;
    lemma_tdiv_shrink(num * SCALE, den * (SCALE as int), den);
    vstd::arithmetic::div_mod::lemma_div_multiples_vanish(SCALE as int, den);
    assert(den * (SCALE as int) == (SCALE as int) * den) by (nonlinear_arith);
}

/// Classifies `(2*u1 - 1, 2*u2 - 1)` into one of the four triangular
/// regions of the square and maps it to polar coordinates without the
/// clumping of the naive polar mapping.  Writes the radius into `rho`
/// and the angle, in radians, into `theta`.
pub fn compute_concentric_map_rho_theta(u1: i64, u2: i64, rho: &mut i64, theta: &mut i64)
    requires
        0 <= u1 < SCALE,
        0 <= u2 < SCALE,
    ensures
        *final(rho) == concentric_spec(u1 as int, u2 as int).0,
        *final(theta) == concentric_spec(u1 as int, u2 as int).1,
        0 <= *final(rho) <= SCALE,
        0 <= *final(theta) <= 8 * (QUARTER_PI_FX as int),
{
    let sx: i64 = 2 * u1 - SCALE;
    let sy: i64 = 2 * u2 - SCALE;
    if sx == 0 && sy == 0 {
        *rho = 0;
        *theta = 0;
        return ;
    }
    let r: i64;
    let t: i64;
    if sx >= -sy {
        if sx > sy {
            r = sx;
            let q = ratio(sy, sx);
            if sy > 0 {
                t = q;
            } else {
                t = 8 * SCALE + q;
            }
        } else {
            r = sy;
            let q = ratio(sx, sy);
            t = 2 * SCALE - q;
        }
    } else {
        if sx <= sy {
            r = -sx;
            let q = ratio(sy, -sx);
            t = 4 * SCALE - q;
        } else {
            r = -sy;
            let q = ratio(sx, -sy);
            t = 6 * SCALE + q;
        }
    }
    proof {
        assert(0 <= t <= 8 * (SCALE as int));
        assert(t * (QUARTER_PI_FX as int) >= 0) by (nonlinear_arith)
            requires
                t >= 0,
        ;
        assert(t * (QUARTER_PI_FX as int) <= 8 * (SCALE as int) * (QUARTER_PI_FX as int))
            by (nonlinear_arith)
            requires
                0 <= t <= 8 * (SCALE as int),
        ;
        lemma_tdiv_shrink(t * (QUARTER_PI_FX as int), 8 * (SCALE as int) * (
        QUARTER_PI_FX as int), SCALE as int);
        crate::fixed::lemma_tdiv_bounds(t as int * (QUARTER_PI_FX as int), SCALE as int);
        crate::fixed::lemma_tdiv_exact(8 * (QUARTER_PI_FX as int), SCALE as int);
        vstd::arithmetic::div_mod::lemma_div_is_ordered(t as int * (QUARTER_PI_FX as int), 8 * (
        QUARTER_PI_FX as int) * (SCALE as int), SCALE as int);
        assert(8 * (SCALE as int) * (QUARTER_PI_FX as int) == 8 * (QUARTER_PI_FX as int) * (
        SCALE as int)) by (nonlinear_arith);
    }
    let wide = wide_mul(t, QUARTER_PI_FX);
    *rho = r;
    *theta = div_wide(wide, SCALE as i128) as i64;
}

/// `num / den` at denominator `SCALE`, for `|num| <= den`.
fn ratio(num: i64, den: i64) -> (r: i64)
    requires
        1 <= den <= 0x20000,
        -den <= num <= den,
    ensures
        r == tdiv(num * SCALE, den as int),
        -SCALE <= r <= SCALE,
{
    proof {
        lemma_ratio_bound(num as int, den as int);
    }
    let wide = wide_mul(num, SCALE);
    div_wide(wide, den as i128) as i64
}

/// An angle in radians as a fraction of a full turn, both at denominator
/// `SCALE`.
pub open spec fn turn_of_rad_spec(theta: int) -> int {
    tdiv(theta * SCALE, TWO_PI_FX as int)
}

/// Converts a radian angle within `[0, 2*pi)` to turns.
fn turn_of_rad(theta: i64) -> (r: i64)
    requires
        0 <= theta <= 411768,
    ensures
        r == turn_of_rad_spec(theta as int),
        0 <= r < SCALE,
{
    proof {
        assert(theta * (SCALE as int) >= 0) by (nonlinear_arith)
            requires
                theta >= 0,
        ;
        assert(theta * (SCALE as int) < (SCALE as int) * (TWO_PI_FX as int)) by (nonlinear_arith)
            requires
                0 <= theta <= 411768,
                TWO_PI_FX == 411774i64,
                SCALE == 65536i64,
        ;
        vstd::arithmetic::div_mod::lemma_multiply_divide_lt(theta as int * (SCALE as int),
            SCALE as int, TWO_PI_FX as int);
        crate::fixed::lemma_tdiv_bounds(theta as int * (SCALE as int), TWO_PI_FX as int);
    }
    let wide = wide_mul(theta, SCALE);
    div_wide(wide, TWO_PI_FX as i128) as i64
}

/// One polar coordinate scaled by a unit-range factor: `r * c / SCALE`.
fn polar_term(r: i64, c: i64) -> (x: i64)
    requires
        0 <= r <= SCALE,
        -SCALE <= c <= SCALE,
    ensures
        x == tdiv(r as int * (c as int), SCALE as int),
        -SCALE <= x <= SCALE,
{
    proof {
        assert(-((SCALE as int) * (SCALE as int)) <= r * c <= (SCALE as int) * (SCALE as int))
            by (nonlinear_arith)
            requires
                0 <= r <= SCALE,
                -SCALE <= c <= SCALE,
        ;
        lemma_tdiv_shrink(r as int * (c as int), (SCALE as int) * (SCALE as int), SCALE as int);
        crate::fixed::lemma_tdiv_exact(SCALE as int, SCALE as int);
        assert((SCALE as int) * (SCALE as int) / (SCALE as int) == SCALE as int) by {
            vstd::arithmetic::div_mod::lemma_div_multiples_vanish(SCALE as int, SCALE as int);
        }
    }
    let wide = wide_mul(r, c);
    div_wide(wide, SCALE as i128) as i64
}

/// The point of the concentric-disk warp: polar coordinates from the
/// four-region map, turned Cartesian.
pub open spec fn concentric_point_spec(s: int, t: int) -> Vec3 {
    let rt = concentric_spec(s, t);
    let cs = cos_sin_turn_spec(turn_of_rad_spec(rt.1));
    Vec3 {
        x: tdiv(rt.0 * cs.0, SCALE as int) as i64,
        y: tdiv(rt.0 * cs.1, SCALE as int) as i64,
        z: 0,
    }
}

/// Cartesian point of the concentric-disk warp.
fn concentric_point(s: i64, t: i64) -> (v: Vec3)
    requires
        0 <= s < SCALE,
        0 <= t < SCALE,
    ensures
        v == concentric_point_spec(s as int, t as int),
        -SCALE <= v.x <= SCALE,
        -SCALE <= v.y <= SCALE,
        v.z == 0,
{
    let mut rho: i64 = 0;
    let mut theta: i64 = 0;
    compute_concentric_map_rho_theta(s, t, &mut rho, &mut theta);
    proof {
        assert(8 * (QUARTER_PI_FX as int) == 411768);
    }
    let turn = turn_of_rad(theta);
    let cs = cos_sin_turn(turn);
    let x = polar_term(rho, cs.0);
    let y = polar_term(rho, cs.1);
    Vec3 { x, y, z: 0 }
}

/// `sqrt(max(0, SCALE^2 - a^2 - b^2))`: the hemisphere lift of a point
/// of the unit disk.
pub open spec fn lift_z_spec(a: int, b: int) -> int {
    let rem = (SCALE as int) * (SCALE as int) - a * a - b * b;
    if rem <= 0 {
        0
    } else {
        sqrt_floor(rem)
    }
}

/// Lifts a disk point onto the upper hemisphere.
fn lift_z(a: i64, b: i64) -> (z: i64)
    requires
        -0x20000 <= a <= 0x20000,
        -0x20000 <= b <= 0x20000,
    ensures
        z == lift_z_spec(a as int, b as int),
        0 <= z <= SCALE,
{
    let aa = wide_mul(a, a);
    let bb = wide_mul(b, b);
    proof {
        assert(0 <= a * a <= 0x400000000) by (nonlinear_arith)
            requires
                -0x20000 <= a <= 0x20000,
        ;
        assert(0 <= b * b <= 0x400000000) by (nonlinear_arith)
            requires
                -0x20000 <= b <= 0x20000,
        ;
    }
    let rem: i128 = (crate::fixed::SCALE2 as i128) - aa - bb;
    if rem <= 0 {
        0
    } else {
        proof {
            assert((1u128 << 126) == 0x40000000000000000000000000000000u128) by (bit_vector);
            crate::fixed::lemma_sqrt_floor(rem as int);
            let z = sqrt_floor(rem as int);
            assert(z * z <= rem);
            assert(z <= SCALE as int) by (nonlinear_arith)
                requires
                    z * z <= rem as int,
                    rem as int <= (SCALE as int) * (SCALE as int),
                    z >= 0,
                    SCALE == 65536i64,
            ;
        }
        isqrt(rem as u128) as i64
    }
}

/// `sqrt(s)` for a unit-range `s`, at denominator `SCALE`.
pub open spec fn sqrt_unit_spec(s: int) -> int {
    sqrt_floor(s * SCALE)
}

/// Square root of a unit-range scalar.
fn sqrt_unit(s: i64) -> (r: i64)
    requires
        0 <= s <= SCALE,
    ensures
        r == sqrt_unit_spec(s as int),
        0 <= r <= SCALE,
{
    let wide = wide_mul(s, SCALE);
    proof {
        assert(0 <= s * SCALE <= (SCALE as int) * (SCALE as int)) by (nonlinear_arith)
            requires
                0 <= s <= SCALE,
        ;
        assert((1u128 << 126) == 0x40000000000000000000000000000000u128) by (bit_vector);
        crate::fixed::lemma_sqrt_floor(s as int * (SCALE as int));
        let z = sqrt_floor(s as int * (SCALE as int));
        assert(z * z <= s as int * (SCALE as int));
        assert(z <= SCALE as int) by (nonlinear_arith)
            requires
                z * z <= s as int * (SCALE as int),
                s as int * (SCALE as int) <= (SCALE as int) * (SCALE as int),
                z >= 0,
                SCALE == 65536i64,
        ;
    }
    isqrt(wide as u128) as i64
}

/// Where each distribution sends the sample pair `(s, t)`.
pub open spec fn warp_point_spec(s: int, t: int, w: WarpFunction) -> Vec3 {
    match w {
        WarpFunction::UniformSphere => {
            let z = SCALE as int - 2 * s;
            let r = lift_z_spec(z, 0);
            let cs = cos_sin_turn_spec(t);
            Vec3 {
                x: tdiv(r * cs.0, SCALE as int) as i64,
                y: tdiv(r * cs.1, SCALE as int) as i64,
                z: z as i64,
            }
        },
        WarpFunction::UniformHemisphere => {
            let z = s;
            let r = lift_z_spec(z, 0);
            let cs = cos_sin_turn_spec(t);
            Vec3 {
                x: tdiv(r * cs.0, SCALE as int) as i64,
                y: tdiv(r * cs.1, SCALE as int) as i64,
                z: z as i64,
            }
        },
        WarpFunction::UniformDisk => {
            let r = sqrt_unit_spec(s);
            let cs = cos_sin_turn_spec(t);
            Vec3 {
                x: tdiv(r * cs.0, SCALE as int) as i64,
                y: tdiv(r * cs.1, SCALE as int) as i64,
                z: 0,
            }
        },
        WarpFunction::ConcentricDisk => concentric_point_spec(s, t),
        WarpFunction::CosineHemisphere => {
            let d = concentric_point_spec(s, t);
            Vec3 { x: d.x, y: d.y, z: lift_z_spec(d.x as int, d.y as int) as i64 }
        },
        WarpFunction::UniformTriangle => {
            let su1 = sqrt_unit_spec(s);
            Vec3 {
                x: (SCALE as int - su1) as i64,
                y: tdiv(t * su1, SCALE as int) as i64,
                z: 0,
            }
        },
        _ => (Vec3 { x: (2 * s - SCALE as int) as i64, y: (2 * t - SCALE as int) as i64, z: 0 }),
    }
}

/// Warps a uniform unit-square sample to a point of the chosen
/// distribution; every coordinate of the result is at unit scale.
pub fn warp_point(s: i64, t: i64, warp_function: WarpFunction) -> (v: Vec3)
    requires
        0 <= s < SCALE,
        0 <= t < SCALE,
    ensures
        v == warp_point_spec(s as int, t as int, warp_function),
        crate::types::bounded(v, SCALE as int),
{
    match warp_function {
        WarpFunction::UniformSphere => {
            let z: i64 = SCALE - 2 * s;
            let r = lift_z(z, 0);
            let cs = cos_sin_turn(t);
            let x = polar_term(r, cs.0);
            let y = polar_term(r, cs.1);
            Vec3 { x, y, z }
        },
        WarpFunction::UniformHemisphere => {
            let z: i64 = s;
            let r = lift_z(z, 0);
            let cs = cos_sin_turn(t);
            let x = polar_term(r, cs.0);
            let y = polar_term(r, cs.1);
            Vec3 { x, y, z }
        },
        WarpFunction::UniformDisk => {
            let r = sqrt_unit(s);
            let cs = cos_sin_turn(t);
            let x = polar_term(r, cs.0);
            let y = polar_term(r, cs.1);
            Vec3 { x, y, z: 0 }
        },
        WarpFunction::ConcentricDisk => concentric_point(s, t),
        WarpFunction::CosineHemisphere => {
            let d = concentric_point(s, t);
            let z = lift_z(d.x, d.y);
            Vec3 { x: d.x, y: d.y, z }
        },
        WarpFunction::UniformTriangle => {
            let su1 = sqrt_unit(s);
            let y = polar_term(su1, t);
            proof {
                assert(su1 as int * (t as int) == t as int * (su1 as int)) by (nonlinear_arith);
            }
            Vec3 { x: SCALE - su1, y, z: 0 }
        },
        _ => {
            Vec3 { x: 2 * s - SCALE, y: 2 * t - SCALE, z: 0 }
        },
    }
}

/// The density each distribution assigns to the sample pair.
pub open spec fn get_pdf_spec(x: int, y: int, w: WarpFunction) -> int {
    match w {
        WarpFunction::UniformHemisphere => INV_TWO_PI_FX as int,
        WarpFunction::UniformSphere => INV_FOUR_PI_FX as int,
        WarpFunction::UniformDisk => INV_PI_FX as int,
        WarpFunction::ConcentricDisk => INV_PI_FX as int,
        WarpFunction::CosineHemisphere => {
            let rt = concentric_spec(x, y);
            let cs = cos_sin_turn_spec(turn_of_rad_spec(rt.1));
            tdiv(tdiv((INV_PI_FX as int) * cs.0, SCALE as int) * cs.1, SCALE as int)
        },
        WarpFunction::UniformTriangle => 2 * (SCALE as int),
        _ => SCALE as int,
    }
}

/// The probability density of the chosen distribution at the sample pair
/// `(x, y)`, at denominator `SCALE`.
pub fn get_pdf(x: i64, y: i64, warp_function: WarpFunction) -> (r: i64)
    requires
        0 <= x < SCALE,
        0 <= y < SCALE,
    ensures
        r == get_pdf_spec(x as int, y as int, warp_function),
{
    match warp_function {
        WarpFunction::UniformHemisphere => INV_TWO_PI_FX,
        WarpFunction::UniformSphere => INV_FOUR_PI_FX,
        WarpFunction::UniformDisk => INV_PI_FX,
        WarpFunction::ConcentricDisk => INV_PI_FX,
        WarpFunction::CosineHemisphere => {
            let mut rho: i64 = 0;
            let mut theta: i64 = 0;
            compute_concentric_map_rho_theta(x, y, &mut rho, &mut theta);
            proof {
                assert(8 * (QUARTER_PI_FX as int) == 411768);
            }
            let turn = turn_of_rad(theta);
            let cs = cos_sin_turn(turn);
            let a = polar_term(INV_PI_FX, cs.0);
            proof {
                assert(INV_PI_FX as int * (cs.0 as int) == cs.0 as int * (INV_PI_FX as int))
                    by (nonlinear_arith);
            }
            let b = polar_term2(a, cs.1);
            b
        },
        WarpFunction::UniformTriangle => 2 * SCALE,
        _ => SCALE,
    }
}

/// As [`polar_term`], for a possibly negative first factor.
fn polar_term2(r: i64, c: i64) -> (x: i64)
    requires
        -SCALE <= r <= SCALE,
        -SCALE <= c <= SCALE,
    ensures
        x == tdiv(r as int * (c as int), SCALE as int),
        -SCALE <= x <= SCALE,
{
    proof {
        assert(-((SCALE as int) * (SCALE as int)) <= r * c <= (SCALE as int) * (SCALE as int))
            by (nonlinear_arith)
            requires
                -SCALE <= r <= SCALE,
                -SCALE <= c <= SCALE,
        ;
        lemma_tdiv_shrink(r as int * (c as int), (SCALE as int) * (SCALE as int), SCALE as int);
        assert((SCALE as int) * (SCALE as int) / (SCALE as int) == SCALE as int) by {
            vstd::arithmetic::div_mod::lemma_div_multiples_vanish(SCALE as int, SCALE as int);
        }
    }
    let wide = wide_mul(r, c);
    div_wide(wide, SCALE as i128) as i64
}

} // verus!
