//! Geometric primitives and their nearest-intersection queries.

use vstd::prelude::*;
use crate::fixed::{tdiv, sqrt_floor, div_wide, isqrt, clamp_spec, SCALE};
use crate::types::{Vec3, Pnt3, bounded, sub_spec, add_spec, neg_spec, dot_spec, norm_sq_spec,
    scale_spec, wide_mul, lemma_dot_bound, lemma_norm_sq_nonneg, lemma_tdiv_shrink};
use crate::ray::{Ray, ray_wf};
use crate::hit::{HitInfo, hit_wf};
use crate::shader::{Shader, shader_wf};

verus! {

/// Largest coordinate magnitude and radius a shape may have.
pub const WMAX: i64 = 0x200000000000;

/// Tolerance on the near root: a root this close to zero is accepted even
/// below `tmin`, admitting grazing self-intersection.
pub const T_EPS: i64 = 1;

/// A sphere with an attached shader.
#[derive(Clone, Copy, Debug, PartialEq, Eq, Structural)]
pub struct Sphere {
    pub position: Pnt3,
    pub radius: i64,
    pub shader: Shader,
}

/// The closed set of shapes a scene can hold.
#[derive(Clone, Copy, Debug, PartialEq, Eq, Structural)]
pub enum Shape {
    Sphere(Sphere),
}

/// A valid sphere: center within the shape envelope, positive bounded
/// radius, valid shader.
pub open spec fn sphere_wf(s: Sphere) -> bool {
    &&& bounded(s.position, WMAX as int)
    &&& 0 < s.radius <= WMAX
    &&& shader_wf(s.shader)
}

/// A valid shape.
pub open spec fn shape_wf(s: Shape) -> bool {
    match s {
        Shape::Sphere(sp) => sphere_wf(sp),
    }
}

/// The shader a shape dispatches to.
pub open spec fn shape_shader(s: Shape) -> Shader {
    match s {
        Shape::Sphere(sp) => sp.shader,
    }
}

/// Projection of the center onto the ray: `(c - o) · dir`, at denominator
/// `SCALE`.
pub open spec fn sphere_dk(s: Sphere, ray: Ray) -> int {
    tdiv(dot_spec(sub_spec(s.position, ray.origin), ray.dir), SCALE as int)
}

/// Squared distance of the center from the ray line, at denominator
/// `SCALE * SCALE`.
pub open spec fn sphere_d2(s: Sphere, ray: Ray) -> int {
    norm_sq_spec(sub_spec(s.position, ray.origin)) - sphere_dk(s, ray) * sphere_dk(s, ray)
}

/// The nearer intersection root along the ray.
pub open spec fn sphere_t(s: Sphere, ray: Ray) -> int {
    sphere_dk(s, ray) - sqrt_floor(s.radius * s.radius - sphere_d2(s, ray))
}

/// Outward unit normal of the sphere at point `p`, clamped to unit scale.
pub open spec fn sphere_normal_spec(s: Sphere, p: Pnt3) -> Vec3 {
    Vec3 {
        x: clamp_spec(
            tdiv((p.x - s.position.x) * SCALE, s.radius as int),
            -2 * (SCALE as int),
            2 * (SCALE as int),
        ) as i64,
        y: clamp_spec(
            tdiv((p.y - s.position.y) * SCALE, s.radius as int),
            -2 * (SCALE as int),
            2 * (SCALE as int),
        ) as i64,
        z: clamp_spec(
            tdiv((p.z - s.position.z) * SCALE, s.radius as int),
            -2 * (SCALE as int),
            2 * (SCALE as int),
        ) as i64,
    }
}

/// Whether the near root is admissible within the ray's parameter window:
/// roots below `tmin` are rejected unless within [`T_EPS`] of zero, and
/// roots beyond `tmax` are rejected.
pub open spec fn sphere_t_admissible(t: int, ray: Ray) -> bool {
    &&& !(t < ray.tmin && (t > T_EPS as int || t < -(T_EPS as int)))
    &&& t <= ray.tmax
}

/// The full algebraic sphere test: `None` when the ray line passes
/// farther from the center than the radius or the near root falls outside
/// the ray's window; otherwise the hit record at the near root.
pub open spec fn sphere_hit_spec(s: Sphere, ray: Ray) -> Option<HitInfo> {
    if sphere_d2(s, ray) > s.radius * s.radius {
        Option::None
    } else {
        let t = sphere_t(s, ray);
        if !sphere_t_admissible(t, ray) {
            Option::None
        } else {
            let p = add_spec(ray.origin, scale_spec(ray.dir, t));
            Option::Some(
                (HitInfo {
                    d: t as i64,
                    i: neg_spec(ray.dir),
                    p,
                    o: ray.origin,
                    n: sphere_normal_spec(s, p),
                    shader: s.shader,
                }),
            )
        }
    }
}

impl Sphere {
    /// Nearest-intersection query against one sphere, exactly
    /// [`sphere_hit_spec`]: a hit is returned if and only if the ray line
    /// passes within the radius of the center and the near root is
    /// admissible for the ray's window; the far root is never
    /// substituted.
    pub fn intersect(&self, ray: &Ray) -> (res: Option<HitInfo>)
        requires
            sphere_wf(*self),
            ray_wf(*ray),
        ensures
            res == sphere_hit_spec(*self, *ray),
            res matches Some(h) ==> hit_wf(h) && h.d == sphere_t(*self, *ray)
                && sphere_t_admissible(h.d as int, *ray) && h.shader == self.shader,
    {
        let c = self.position;
        let o = ray.origin;
        let d = ray.dir;
        let co = c.sub(&o);
        let r2: i128 = wide_mul(self.radius, self.radius);
        let dk_w: i128 = co.dot(&d);
        proof {
            lemma_dot_bound(sub_spec(c, o), d, 0x400000000000, SCALE as int);
            lemma_tdiv_shrink(dk_w as int, 0xC000000000000000, SCALE as int);
        }
        let dk: i64 = div_wide(dk_w, SCALE as i128) as i64;
        let n2: i128 = co.norm_sq();
        proof {
            lemma_dot_bound(sub_spec(c, o), sub_spec(c, o), 0x400000000000, 0x400000000000);
            assert(-(0xC00000000000 * 0xC00000000000) <= dk * dk <= 0xC00000000000
                * 0xC00000000000) by (nonlinear_arith)
                requires
                    -0xC00000000000 <= dk <= 0xC00000000000,
            ;
            assert(dk * dk >= 0) by (nonlinear_arith);
            assert(self.radius * self.radius <= WMAX as int * (WMAX as int)) by (nonlinear_arith)
                requires
                    0 < self.radius <= WMAX as int,
            ;
            assert(self.radius * self.radius >= 0) by (nonlinear_arith);
        }
        let dk2: i128 = wide_mul(dk, dk);
        let d2: i128 = n2 - dk2;
        if d2 > r2 {
            return None;
        }
        let rem: i128 = r2 - d2;
        proof {
            lemma_norm_sq_nonneg(sub_spec(c, o));
            assert((1u128 << 126) == 0x40000000000000000000000000000000u128) by (bit_vector);
        }
        let f_u: u64 = isqrt(rem as u128);
        proof {
            let fi = sqrt_floor(rem as int);
            assert(fi * fi <= rem);
            assert(fi < 0x1000000000000) by (nonlinear_arith)
                requires
                    fi * fi <= rem as int,
                    rem as int <= WMAX as int * (WMAX as int) + 0xC00000000000 * 0xC00000000000,
                    fi >= 0,
                    WMAX == 0x200000000000i64,
            ;
        }
        let f: i64 = f_u as i64;
        let t1: i64 = dk + f;
        let t2: i64 = dk - f;
        let t: i64 = if t1 <= t2 {
            t1
        } else {
            t2
        };
        assert(t == sphere_t(*self, *ray));
        if t < ray.tmin && (t > T_EPS || t < -T_EPS) {
            return None;
        }
        if t > ray.tmax {
            return None;
        }
        let p = o.add(&d.scale(t));
        let n = self.normal_at(&p);
        Some(HitInfo { d: t, i: d.neg(), p, o, n, shader: self.shader })
    }

    /// The outward normal at a surface point: `(p - center) / radius`,
    /// clamped to unit scale against degenerate inputs.
    fn normal_at(&self, p: &Pnt3) -> (n: Vec3)
        requires
            sphere_wf(*self),
            bounded(*p, 0x8000000000000),
        ensures
            n == sphere_normal_spec(*self, *p),
            bounded(n, 2 * (SCALE as int)),
    {
        let nx = normal_term(p.x, self.position.x, self.radius);
        let ny = normal_term(p.y, self.position.y, self.radius);
        let nz = normal_term(p.z, self.position.z, self.radius);
        Vec3 { x: nx, y: ny, z: nz }
    }
}

/// One normal coordinate: `(p - c) * SCALE / radius`, clamped.
fn normal_term(p: i64, c: i64, radius: i64) -> (r: i64)
    requires
        -0x8000000000000 <= p <= 0x8000000000000,
        -(WMAX as int) <= c <= WMAX as int,
        0 < radius,
    ensures
        r == clamp_spec(tdiv((p - c) * SCALE, radius as int), -2 * (SCALE as int), 2 * (
        SCALE as int)) as i64,
        -0x20000 <= r <= 0x20000,
{
    let diff: i128 = (p as i128) - (c as i128);
    let wide: i128 = diff * (SCALE as i128);
    let q: i128 = div_wide(wide, radius as i128);
    proof {
        crate::fixed::lemma_tdiv_bounds((diff * (SCALE as int)) as int, radius as int);
    }
    let qc: i64 = if q < -0x20000 {
        -0x20000
    } else if q > 0x20000 {
        0x20000
    } else {
        q as i64
    };
    qc
}

impl Sphere {
    /// Shades a hit on this sphere with its attached shader.
    pub fn shade(&self, hit: &HitInfo, renderer: &crate::renderer::Renderer) -> (c:
        crate::types::Color)
        requires
            sphere_wf(*self),
            hit_wf(*hit),
            crate::scene::scene_wf(*renderer.scene),
        ensures
            crate::shader::shade_post(self.shader, *hit, c),
            crate::shader::color_wf(c),
    {
        self.shader.shade(hit, renderer)
    }
}

/// Dispatches an intersection query to the shape's variant.
impl Shape {
    /// Shades a hit on this shape with its attached shader.
    pub fn shade(&self, hit: &HitInfo, renderer: &crate::renderer::Renderer) -> (c:
        crate::types::Color)
        requires
            shape_wf(*self),
            hit_wf(*hit),
            crate::scene::scene_wf(*renderer.scene),
        ensures
            crate::shader::shade_post(shape_shader(*self), *hit, c),
            crate::shader::color_wf(c),
    {
        match self {
            Shape::Sphere(s) => s.shade(hit, renderer),
        }
    }

    /// Nearest-intersection query, per the variant's own contract.
    pub fn intersect(&self, ray: &Ray) -> (res: Option<HitInfo>)
        requires
            shape_wf(*self),
            ray_wf(*ray),
        ensures
            res == shape_hit_spec(*self, *ray),
            res matches Some(h) ==> hit_wf(h) && sphere_t_admissible(h.d as int, *ray)
                && h.shader == shape_shader(*self),
    {
        match self {
            Shape::Sphere(s) => s.intersect(ray),
        }
    }
}

/// A tangent ray meets the sphere at the foot of the center's
/// projection: when the squared line-center distance equals the squared
/// radius, the root under the square root vanishes and the reported hit
/// distance is exactly the projection `dk`.
pub proof fn lemma_tangent_hit_distance(s: Sphere, ray: Ray)
    requires
        sphere_wf(s),
        ray_wf(ray),
        sphere_d2(s, ray) == s.radius * s.radius,
        sphere_t_admissible(sphere_t(s, ray), ray),
    ensures
        sphere_hit_spec(s, ray) matches Some(h) && h.d == sphere_dk(s, ray),
{
    assert(s.radius * s.radius - sphere_d2(s, ray) == 0);
    assert(sqrt_floor(0) == 0);
    assert(sphere_t(s, ray) == sphere_dk(s, ray));
}

/// At a tangent contact with an exactly unit ray direction, the contact
/// offset is perpendicular to the ray: the exact (pre-truncation) hit
/// offset `SCALE^2 * co - dk * d`, with `dk` the undivided projection
/// `co . d`, has zero dot product with `d`.
pub proof fn lemma_tangent_offset_perpendicular(co: Vec3, d: Vec3)
    requires
        norm_sq_spec(d) == (SCALE as int) * (SCALE as int),
    ensures
        ({
            let k = dot_spec(co, d);
            ((SCALE as int) * (SCALE as int) * co.x - k * d.x) * d.x + ((SCALE as int) * (
            SCALE as int) * co.y - k * d.y) * d.y + ((SCALE as int) * (SCALE as int) * co.z - k
                * d.z) * d.z == 0
        }),
{
    let k = dot_spec(co, d);
    let s2 = (SCALE as int) * (SCALE as int);
    assert((s2 * co.x - k * d.x) * d.x == s2 * (co.x * d.x) - k * (d.x * d.x))
        by (nonlinear_arith);
    assert((s2 * co.y - k * d.y) * d.y == s2 * (co.y * d.y) - k * (d.y * d.y))
        by (nonlinear_arith);
    assert((s2 * co.z - k * d.z) * d.z == s2 * (co.z * d.z) - k * (d.z * d.z))
        by (nonlinear_arith);
    assert(s2 * (co.x * d.x) + s2 * (co.y * d.y) + s2 * (co.z * d.z) == s2 * k)
        by (nonlinear_arith)
        requires
            k == co.x * d.x + co.y * d.y + co.z * d.z,
    ;
    assert(k * (d.x * d.x) + k * (d.y * d.y) + k * (d.z * d.z) == k * s2) by (nonlinear_arith)
        requires
            s2 == d.x * d.x + d.y * d.y + d.z * d.z,
    ;
    assert(s2 * k - k * s2 == 0) by (nonlinear_arith);
}

/// The intersection result of any shape variant.
pub open spec fn shape_hit_spec(s: Shape, ray: Ray) -> Option<HitInfo> {
    match s {
        Shape::Sphere(sp) => sphere_hit_spec(sp, ray),
    }
}

} // verus!
