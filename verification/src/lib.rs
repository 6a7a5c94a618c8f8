//! An offline ray tracer over fixed-point arithmetic.
//!
//! Scalars are signed integers carrying an implicit denominator of
//! `fixed::SCALE`, so every geometric computation is exact integer
//! arithmetic with truncating division, and every contract is stated
//! over mathematical integers.  A camera turns pixel coordinates into
//! world-space rays through an integer matrix chain, spheres answer
//! nearest-intersection queries, and shaders (including a Monte-Carlo
//! ambient-occlusion estimator fed by `rand`) turn hits into colors.

pub mod fixed;
pub mod types;
pub mod trig;
pub mod mat;
pub mod camera;
pub mod warp;
pub mod ray;
pub mod hit;
pub mod shader;
pub mod rng;
pub mod shape;
pub mod scene;
pub mod renderer;
pub mod window;

use vstd::prelude::*;

verus! {

} // verus!
