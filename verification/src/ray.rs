//! Parametric rays with valid-parameter bounds.

use vstd::prelude::*;
use crate::fixed::SCALE;
use crate::types::{Vec3, Pnt3, bounded, normalize_spec, norm_sq_spec, lemma_normalize_exact_unit,
    VMAX};

verus! {

/// Largest coordinate magnitude admitted for a ray origin; hit points of
/// such rays stay within [`crate::types::VMAX`].
pub const RMAX: i64 = 0x200000000000;

/// The `tmax` of an unbounded ray: no finite hit distance reaches it.
pub const T_INF: i64 = 0x7fffffffffffffff;

/// A ray: origin, unit direction, and the parameter window `[tmin, tmax]`
/// within which hits count.  `tmax` is tightened as closer hits are found
/// during a scene scan.
#[derive(Clone, Copy, Debug, PartialEq, Eq, Structural)]
pub struct Ray {
    pub tmin: i64,
    pub tmax: i64,
    pub origin: Pnt3,
    pub dir: Vec3,
}

/// A well-formed ray: origin within the world envelope, direction at unit
/// scale, and a nonnegative near bound.
pub open spec fn ray_wf(r: Ray) -> bool {
    &&& bounded(r.origin, RMAX as int)
    &&& bounded(r.dir, SCALE as int)
    &&& 0 <= r.tmin
}

impl Ray {
    /// Builds a ray, normalizing the direction: whatever the length of
    /// `dir`, the stored direction is `normalize_spec(dir)`, and a `dir`
    /// whose squared norm is exactly one is stored unchanged.
    pub fn new(origin: &Pnt3, dir: Vec3, tmin: i64, tmax: i64) -> (r: Ray)
        requires
            bounded(*origin, RMAX as int),
            bounded(dir, VMAX as int),
            norm_sq_spec(dir) > 0,
            0 <= tmin,
        ensures
            r.origin == *origin,
            r.dir == normalize_spec(dir),
            r.tmin == tmin,
            r.tmax == tmax,
            ray_wf(r),
            norm_sq_spec(dir) == (SCALE as int) * (SCALE as int) ==> r.dir == dir,
    {
        proof {
            if norm_sq_spec(dir) == (SCALE as int) * (SCALE as int) {
                lemma_normalize_exact_unit(dir);
            }
        }
        Ray { tmin, tmax, origin: *origin, dir: dir.normalize() }
    }
}

} // verus!
