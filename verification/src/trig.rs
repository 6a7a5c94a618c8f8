//! Fixed-point circular functions.
//!
//! Sine and cosine on one quadrant are truncated Taylor polynomials whose
//! computed value each contract pins exactly; the full circle is reached
//! by quadrant symmetry from a fraction-of-a-turn argument.  Results are
//! clamped into the unit range, so callers always get unit-scale values.

use vstd::prelude::*;
use crate::fixed::{tdiv, div_wide, clamp_spec, SCALE};
use crate::types::wide_mul;

verus! {

/// One half turn, `pi`, at denominator [`SCALE`].
pub const PI_FX: i64 = 205887;

/// One quarter turn, `pi / 2`, at denominator [`SCALE`].
pub const HALF_PI_FX: i64 = 102943;

/// Product of two scalars rescaled by `SCALE`, for quadrant-sized values.
fn mul_div_s(a: i64, b: i64) -> (r: i64)
    requires
        -0x200000 <= a <= 0x200000,
        -0x200000 <= b <= 0x200000,
    ensures
        r == tdiv(a * b, SCALE as int),
{
    proof {
        assert(-0x40000000000 <= a * b <= 0x40000000000) by (nonlinear_arith)
            requires
                -0x200000 <= a <= 0x200000,
                -0x200000 <= b <= 0x200000,
        ;
        crate::types::lemma_tdiv_shrink(a * b, 0x40000000000, SCALE as int);
    }
    let wide = wide_mul(a, b);
    div_wide(wide, SCALE as i128) as i64
}

/// The quadrant sine polynomial `x - x^3/6 + x^5/120 - x^7/5040`, each
/// step truncating as the executable code does, clamped into `[0, 1]`.
pub open spec fn sin_q_spec(x: int) -> int {
    let x2 = tdiv(x * x, SCALE as int);
    let x3 = tdiv(x2 * x, SCALE as int);
    let x5 = tdiv(tdiv(x3 * x, SCALE as int) * x, SCALE as int);
    let x7 = tdiv(tdiv(x5 * x, SCALE as int) * x, SCALE as int);
    clamp_spec(x - tdiv(x3, 6) + tdiv(x5, 120) - tdiv(x7, 5040), 0, SCALE as int)
}

/// The quadrant cosine polynomial `1 - x^2/2 + x^4/24 - x^6/720 +
/// x^8/40320`, truncating stepwise, clamped into `[0, 1]`.
pub open spec fn cos_q_spec(x: int) -> int {
    let x2 = tdiv(x * x, SCALE as int);
    let x4 = tdiv(x2 * x2, SCALE as int);
    let x6 = tdiv(x4 * x2, SCALE as int);
    let x8 = tdiv(x6 * x2, SCALE as int);
    clamp_spec(
        SCALE as int - tdiv(x2, 2) + tdiv(x4, 24) - tdiv(x6, 720) + tdiv(x8, 40320),
        0,
        SCALE as int,
    )
}

/// Sine on `[0, pi/2]`.
pub fn sin_q(x: i64) -> (r: i64)
    requires
        0 <= x <= HALF_PI_FX + 1,
    ensures
        r == sin_q_spec(x as int),
        0 <= r <= SCALE,
{
    let x2 = mul_div_s(x, x);
    proof {
        bound_step(x as int, x as int, 102944, 102944, 161705);
    }
    let x3 = mul_div_s(x2, x);
    proof {
        bound_step(x2 as int, x as int, 161705, 102944, 254007);
    }
    let x4t = mul_div_s(x3, x);
    proof {
        bound_step(x3 as int, x as int, 254007, 102944, 398995);
    }
    let x5 = mul_div_s(x4t, x);
    proof {
        bound_step(x4t as int, x as int, 398995, 102944, 626742);
    }
    let x6t = mul_div_s(x5, x);
    proof {
        bound_step(x5 as int, x as int, 626742, 102944, 984487);
    }
    let x7 = mul_div_s(x6t, x);
    proof {
        bound_step(x6t as int, x as int, 984487, 102944, 1546433);
        crate::fixed::lemma_tdiv_bounds(x3 as int, 6);
        crate::fixed::lemma_tdiv_bounds(x5 as int, 120);
        crate::fixed::lemma_tdiv_bounds(x7 as int, 5040);
    }
    let t3 = crate::fixed::div_fx(x3, 6);
    let t5 = crate::fixed::div_fx(x5, 120);
    let t7 = crate::fixed::div_fx(x7, 5040);
    let raw = x - t3 + t5 - t7;
    crate::fixed::clamp_fx(raw, 0, SCALE)
}

/// Cosine on `[0, pi/2]`.
pub fn cos_q(x: i64) -> (r: i64)
    requires
        0 <= x <= HALF_PI_FX + 1,
    ensures
        r == cos_q_spec(x as int),
        0 <= r <= SCALE,
{
    let x2 = mul_div_s(x, x);
    proof {
        bound_step(x as int, x as int, 102944, 102944, 161705);
    }
    let x4 = mul_div_s(x2, x2);
    proof {
        bound_step(x2 as int, x2 as int, 161705, 161705, 398995);
    }
    let x6 = mul_div_s(x4, x2);
    proof {
        bound_step(x4 as int, x2 as int, 398995, 161705, 984490);
    }
    let x8 = mul_div_s(x6, x2);
    proof {
        bound_step(x6 as int, x2 as int, 984490, 161705, 2429153);
        crate::fixed::lemma_tdiv_bounds(x2 as int, 2);
        crate::fixed::lemma_tdiv_bounds(x4 as int, 24);
        crate::fixed::lemma_tdiv_bounds(x6 as int, 720);
        crate::fixed::lemma_tdiv_bounds(x8 as int, 40320);
    }
    let t2 = crate::fixed::div_fx(x2, 2);
    let t4 = crate::fixed::div_fx(x4, 24);
    let t6 = crate::fixed::div_fx(x6, 720);
    let t8 = crate::fixed::div_fx(x8, 40320);
    let raw = SCALE - t2 + t4 - t6 + t8;
    crate::fixed::clamp_fx(raw, 0, SCALE)
}

/// Division steps only shrink: bounds on both factors of a rescaled
/// product bound the result.
proof fn bound_step(a: int, b: int, ma: int, mb: int, m: int)
    requires
        0 <= ma,
        0 <= mb,
        0 <= m,
        -ma <= a <= ma,
        -mb <= b <= mb,
        ma * mb <= m * (SCALE as int),
    ensures
        -m <= tdiv(a * b, SCALE as int) <= m,
{
    assert(-(ma * mb) <= a * b <= ma * mb) by (nonlinear_arith)
        requires
            0 <= ma,
            0 <= mb,
            -ma <= a <= ma,
            -mb <= b <= mb,
    ;
    crate::types::lemma_tdiv_shrink(a * b, ma * mb, SCALE as int);
    vstd::arithmetic::div_mod::lemma_div_is_ordered(ma * mb, m * (SCALE as int), SCALE as int);
    vstd::arithmetic::div_mod::lemma_div_multiples_vanish(m, SCALE as int);
    assert((SCALE as int) * m == m * (SCALE as int)) by (nonlinear_arith);
}

/// Cosine and sine of `t` turns, `0 <= t < 1`, by quadrant symmetry.
pub open spec fn cos_sin_turn_spec(t: int) -> (int, int) {
    let q = tdiv(4 * t, SCALE as int);
    let rem = 4 * t - q * (SCALE as int);
    let a = tdiv(rem * (HALF_PI_FX as int), SCALE as int);
    let c = cos_q_spec(a);
    let s = sin_q_spec(a);
    if q == 0 {
        (c, s)
    } else if q == 1 {
        (-s, c)
    } else if q == 2 {
        (-c, -s)
    } else {
        (s, -c)
    }
}

/// Cosine and sine of a direction given as a fraction of a full turn.
pub fn cos_sin_turn(t: i64) -> (r: (i64, i64))
    requires
        0 <= t < SCALE,
    ensures
        (r.0 as int, r.1 as int) == cos_sin_turn_spec(t as int),
        -SCALE <= r.0 <= SCALE,
        -SCALE <= r.1 <= SCALE,
{
    let four_t: i64 = 4 * t;
    let q: i64 = crate::fixed::div_fx(four_t, SCALE);
    proof {
        crate::fixed::lemma_tdiv_bounds(4 * (t as int), SCALE as int);
        vstd::arithmetic::div_mod::lemma_fundamental_div_mod(4 * (t as int), SCALE as int);
        vstd::arithmetic::div_mod::lemma_mod_division_less_than_divisor(4 * (t as int),
            SCALE as int);
        assert(q <= 3) by {
            vstd::arithmetic::div_mod::lemma_div_is_ordered(4 * (t as int), 4 * (SCALE as int)
                - 1, SCALE as int);
            assert((4 * (SCALE as int) - 1) / (SCALE as int) == 3);
        }
    }
    let rem: i64 = four_t - q * SCALE;
    proof {
        assert(rem == 4 * (t as int) % (SCALE as int));
        assert(0 <= rem < SCALE);
    }
    let a: i64 = mul_div_s(rem, HALF_PI_FX);
    proof {
        bound_step(rem as int, HALF_PI_FX as int, 65535, 102943, 102943);
        assert(rem * (HALF_PI_FX as int) >= 0) by (nonlinear_arith)
            requires
                rem >= 0,
        ;
        crate::fixed::lemma_tdiv_bounds(rem as int * (HALF_PI_FX as int), SCALE as int);
    }
    let c = cos_q(a);
    let s = sin_q(a);
    if q == 0 {
        (c, s)
    } else if q == 1 {
        (-s, c)
    } else if q == 2 {
        (-c, -s)
    } else {
        (s, -c)
    }
}

} // verus!
