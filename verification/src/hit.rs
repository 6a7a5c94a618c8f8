//! The result of a ray/shape intersection.

use vstd::prelude::*;
use crate::types::{Vec3, Pnt3, bounded};
use crate::shader::{Shader, shader_wf};
use crate::fixed::SCALE;

verus! {

/// Geometric and shading data of one intersection, consumed immediately
/// by the shading step.  Carries the hit shape's shader for dispatch.
#[derive(Clone, Copy, Debug, PartialEq, Eq, Structural)]
pub struct HitInfo {
    /// Hit distance along the ray.
    pub d: i64,
    /// Incident direction, the reverse of the ray direction.
    pub i: Vec3,
    /// Hit point.
    pub p: Pnt3,
    /// Origin of the ray that hit.
    pub o: Pnt3,
    /// Outward surface normal at the hit point.
    pub n: Vec3,
    /// Shader of the hit shape.
    pub shader: Shader,
}

/// A well-formed hit: the point within the extended envelope, the
/// directions at unit scale, and a near-nonnegative distance.
pub open spec fn hit_wf(h: HitInfo) -> bool {
    &&& bounded(h.p, 0x8000000000000)
    &&& bounded(h.o, 0x8000000000000)
    &&& bounded(h.i, SCALE as int)
    &&& bounded(h.n, 2 * (SCALE as int))
    &&& -1 <= h.d
    &&& shader_wf(h.shader)
}

impl HitInfo {
    /// Assembles an intersection record.
    pub fn new(shader: Shader, distance: i64, incident: Vec3, hit_point: Pnt3, hit_origin: Pnt3,
        normal: Vec3) -> (r: HitInfo)
        ensures
            r == (HitInfo {
                d: distance,
                i: incident,
                p: hit_point,
                o: hit_origin,
                n: normal,
                shader,
            }),
    {
        HitInfo { d: distance, i: incident, p: hit_point, o: hit_origin, n: normal, shader }
    }
}

} // verus!
