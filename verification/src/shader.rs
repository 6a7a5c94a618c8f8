//! Shaders: turning an intersection into a color.
//!
//! A closed set of variants dispatched by `match`: a Gouraud-style
//! normal-visualization shader, a Phong placeholder that returns its base
//! color, and a Monte-Carlo ambient-occlusion estimator whose sampling
//! loop lives with the renderer.

use vstd::prelude::*;
use crate::fixed::{tdiv, clamp_spec, div_wide, div_fx, SCALE};
use crate::types::{Vec3, Color, bounded, mul_comp_spec, clamp_vec_spec, cross_spec, dot_spec,
    norm_sq_spec, normalize_spec, wide_mul, lemma_tdiv_shrink, lemma_dot_bound};
use crate::mat::{Mat3, mat3_identity, mat3_bounded, mat3_apply_spec};
use crate::hit::{HitInfo, hit_wf};
use crate::ray::{Ray, RMAX, T_INF};
use crate::shape::Shape;
use crate::scene::scene_wf;
use crate::renderer::{Renderer, scene_fold};
use crate::warp::{WarpFunction, warp_point, warp_point_spec};

verus! {

/// Visualizes the surface normal: `color ⊙ (1/2 + n/2)` componentwise.
#[derive(Clone, Copy, Debug, PartialEq, Eq, Structural)]
pub struct GouraudShader {
    pub color: Color,
}

/// An extension point: shades with the base color alone.
#[derive(Clone, Copy, Debug, PartialEq, Eq, Structural)]
pub struct PhongShader {
    pub color: Color,
}

/// Monte-Carlo estimator of the unoccluded hemisphere fraction, scaled by
/// a base albedo color.
#[derive(Clone, Copy, Debug, PartialEq, Eq, Structural)]
pub struct AmbientOcculusionShader {
    pub samples: i32,
    pub color: Color,
}

/// The closed set of shading behaviours a shape can carry.
#[derive(Clone, Copy, Debug, PartialEq, Eq, Structural)]
pub enum Shader {
    Gouraud(GouraudShader),
    Phong(PhongShader),
    AmbientOcculusion(AmbientOcculusionShader),
}

/// A color every channel of which lies in `[0, SCALE]`.
pub open spec fn color_wf(c: Color) -> bool {
    &&& 0 <= c.x <= SCALE as int
    &&& 0 <= c.y <= SCALE as int
    &&& 0 <= c.z <= SCALE as int
}

/// A shader whose parameters are valid: colors within `[0, 1]` per
/// channel and, for the occlusion estimator, a positive sample count.
pub open spec fn shader_wf(s: Shader) -> bool {
    match s {
        Shader::Gouraud(g) => color_wf(g.color),
        Shader::Phong(p) => color_wf(p.color),
        Shader::AmbientOcculusion(a) => color_wf(a.color) && 0 < a.samples <= 0x10000,
    }
}

/// The Gouraud shading formula: half the normal lifted into `[0, 1]`,
/// multiplied componentwise into the base color.
pub open spec fn gouraud_spec(color: Color, n: Vec3) -> Color {
    mul_comp_spec(
        clamp_vec_spec(
            (Vec3 {
                x: (32768 + tdiv(n.x as int, 2)) as i64,
                y: (32768 + tdiv(n.y as int, 2)) as i64,
                z: (32768 + tdiv(n.z as int, 2)) as i64,
            }),
            0,
            SCALE as int,
        ),
        color,
    )
}

/// Dot products above this value, at denominator `SCALE * SCALE`, count
/// the two directions as already aligned.
pub const ALIGN_DOT: i64 = 4294537799;

/// Coordinates within this value of zero let the matching axis serve as
/// the half-turn rotation axis for antiparallel directions.
pub const AXIS_LIM: i64 = 58982;

/// Smallest admitted value of `1 + cos` in the Rodrigues denominator;
/// below it the construction falls back to the half-turn branch.
pub const DEN_MIN: i64 = 16;

/// The half-turn rotation about a coordinate axis chosen not to be
/// collinear with `from`: the x axis if `from` leans away from it, else
/// the y axis, else the z axis.
pub open spec fn pi_flip_spec(from: Vec3) -> Mat3 {
    if -(AXIS_LIM as int) < from.x < AXIS_LIM as int {
        Mat3 { m00: SCALE, m01: 0, m02: 0, m10: 0, m11: -65536i64, m12: 0, m20: 0, m21: 0, m22: -65536i64 }
    } else if -(AXIS_LIM as int) < from.y < AXIS_LIM as int {
        Mat3 { m00: -65536i64, m01: 0, m02: 0, m10: 0, m11: SCALE, m12: 0, m20: 0, m21: 0, m22: -65536i64 }
    } else {
        Mat3 { m00: -65536i64, m01: 0, m02: 0, m10: 0, m11: -65536i64, m12: 0, m20: 0, m21: 0, m22: SCALE }
    }
}

/// One entry of the second-order Rodrigues term
/// `(v v^T - |v|^2 I) / (1 + cos)`, clamped to four units.
pub open spec fn rodrigues_term_spec(vi: int, vj: int, sub: int, den: int) -> int {
    clamp_spec(
        tdiv((tdiv(vi * vj, SCALE as int) - sub) * SCALE, den),
        -4 * (SCALE as int),
        4 * (SCALE as int),
    )
}

/// The trig-free Rodrigues rotation built from the cross product `v` and
/// the denominator `1 + cos`: identity plus the skew matrix of `v` plus
/// the clamped second-order term.
pub open spec fn rodrigues_spec(v: Vec3, den: int) -> Mat3 {
    let n2s = tdiv(norm_sq_spec(v), SCALE as int);
    Mat3 {
        m00: (SCALE as int + rodrigues_term_spec(v.x as int, v.x as int, n2s, den)) as i64,
        m01: (-v.z + rodrigues_term_spec(v.x as int, v.y as int, 0, den)) as i64,
        m02: (v.y + rodrigues_term_spec(v.x as int, v.z as int, 0, den)) as i64,
        m10: (v.z + rodrigues_term_spec(v.y as int, v.x as int, 0, den)) as i64,
        m11: (SCALE as int + rodrigues_term_spec(v.y as int, v.y as int, n2s, den)) as i64,
        m12: (-v.x + rodrigues_term_spec(v.y as int, v.z as int, 0, den)) as i64,
        m20: (-v.y + rodrigues_term_spec(v.z as int, v.x as int, 0, den)) as i64,
        m21: (v.x + rodrigues_term_spec(v.z as int, v.y as int, 0, den)) as i64,
        m22: (SCALE as int + rodrigues_term_spec(v.z as int, v.z as int, n2s, den)) as i64,
    }
}

/// The rotation taking unit direction `from` onto unit direction `to`:
/// identity when they already align, a half turn about a coordinate axis
/// when they are antiparallel (cross product vanishing), and otherwise
/// the Rodrigues rotation about their cross product.
pub open spec fn rotate_to_spec(from: Vec3, to: Vec3) -> Mat3 {
    if dot_spec(from, to) > ALIGN_DOT as int {
        mat3_identity()
    } else {
        let v = cross_spec(from, to);
        if norm_sq_spec(v) < 1 {
            pi_flip_spec(from)
        } else {
            let den = SCALE as int + tdiv(dot_spec(from, to), SCALE as int);
            if den < DEN_MIN as int {
                pi_flip_spec(from)
            } else {
                rodrigues_spec(v, den)
            }
        }
    }
}

/// Builds the rotation taking `from` onto `to`, exactly
/// [`rotate_to_spec`].
pub fn rotate_to(from: &Vec3, to: &Vec3) -> (r: Mat3)
    requires
        bounded(*from, 0x20000),
        bounded(*to, 0x20000),
    ensures
        r == rotate_to_spec(*from, *to),
        mat3_bounded(r, 0x100000),
{
    proof {
        lemma_dot_bound(*from, *to, 0x20000, 0x20000);
    }
    let dotv: i128 = from.dot(to);
    if dotv > ALIGN_DOT as i128 {
        return Mat3::identity();
    }
    let v = from.cross(to);
    let n2: i128 = v.norm_sq();
    proof {
        lemma_dot_bound(cross_spec(*from, *to), cross_spec(*from, *to), 0x80000, 0x80000);
        crate::fixed::lemma_tdiv_bounds(dot_spec(*from, *to), SCALE as int);
        lemma_tdiv_shrink(dot_spec(*from, *to), 0xC00000000, SCALE as int);
    }
    if n2 < 1 {
        return pi_flip(from);
    }
    let c: i64 = div_wide(dotv, SCALE as i128) as i64;
    let den: i64 = SCALE + c;
    if den < DEN_MIN {
        return pi_flip(from);
    }
    let n2s: i64 = div_wide(n2, SCALE as i128) as i64;
    proof {
        lemma_tdiv_shrink(norm_sq_spec(cross_spec(*from, *to)), 0xC0000000000, SCALE as int);
    }
    let m00 = SCALE + rodrigues_term(v.x, v.x, n2s, den);
    let m01 = -v.z + rodrigues_term(v.x, v.y, 0, den);
    let m02 = v.y + rodrigues_term(v.x, v.z, 0, den);
    let m10 = v.z + rodrigues_term(v.y, v.x, 0, den);
    let m11 = SCALE + rodrigues_term(v.y, v.y, n2s, den);
    let m12 = -v.x + rodrigues_term(v.y, v.z, 0, den);
    let m20 = -v.y + rodrigues_term(v.z, v.x, 0, den);
    let m21 = v.x + rodrigues_term(v.z, v.y, 0, den);
    let m22 = SCALE + rodrigues_term(v.z, v.z, n2s, den);
    Mat3 { m00, m01, m02, m10, m11, m12, m20, m21, m22 }
}

/// The half-turn fallback rotation.
fn pi_flip(from: &Vec3) -> (r: Mat3)
    ensures
        r == pi_flip_spec(*from),
        mat3_bounded(r, 0x100000),
{
    if -AXIS_LIM < from.x && from.x < AXIS_LIM {
        Mat3 { m00: SCALE, m01: 0, m02: 0, m10: 0, m11: -SCALE, m12: 0, m20: 0, m21: 0, m22: -SCALE }
    } else if -AXIS_LIM < from.y && from.y < AXIS_LIM {
        Mat3 { m00: -SCALE, m01: 0, m02: 0, m10: 0, m11: SCALE, m12: 0, m20: 0, m21: 0, m22: -SCALE }
    } else {
        Mat3 { m00: -SCALE, m01: 0, m02: 0, m10: 0, m11: -SCALE, m12: 0, m20: 0, m21: 0, m22: SCALE }
    }
}

/// Aligning a direction with itself changes nothing: for an exactly unit
/// direction the rotation is the identity, and its image under it is the
/// direction itself.
pub proof fn lemma_rotate_to_identity(v: Vec3)
    requires
        norm_sq_spec(v) == (SCALE as int) * (SCALE as int),
    ensures
        rotate_to_spec(v, v) == mat3_identity(),
        mat3_apply_spec(rotate_to_spec(v, v), v) == v,
{
    assert((SCALE as int) * (SCALE as int) == 4294967296) by (nonlinear_arith);
    assert(dot_spec(v, v) > ALIGN_DOT as int);
    assert(rotate_to_spec(v, v) == mat3_identity());
    crate::fixed::lemma_tdiv_exact(v.x as int, SCALE as int);
    crate::fixed::lemma_tdiv_exact(v.y as int, SCALE as int);
    crate::fixed::lemma_tdiv_exact(v.z as int, SCALE as int);
    assert(mat3_apply_spec(mat3_identity(), v) == v);
}

/// Aligning the canonical +z direction with its negation flips it
/// exactly: the antiparallel fallback neither stays at the identity nor
/// distorts the direction.
pub proof fn lemma_rotate_to_flip_z()
    ensures
        mat3_apply_spec(
            rotate_to_spec((Vec3 { x: 0, y: 0, z: SCALE }), (Vec3 { x: 0, y: 0, z: -65536i64 })),
            (Vec3 { x: 0, y: 0, z: SCALE }),
        ) == (Vec3 { x: 0, y: 0, z: -65536i64 }),
{
    let zpos = Vec3 { x: 0, y: 0, z: SCALE };
    let zneg = Vec3 { x: 0, y: 0, z: -65536i64 };
    assert((SCALE as int) * (-65536) == -4294967296) by (nonlinear_arith);
    assert(dot_spec(zpos, zneg) == -4294967296);
    crate::fixed::lemma_tdiv_exact(0, SCALE as int);
    assert(cross_spec(zpos, zneg) == (Vec3 { x: 0i64, y: 0i64, z: 0i64 }));
    assert(norm_sq_spec(cross_spec(zpos, zneg)) == 0);
    let m = rotate_to_spec(zpos, zneg);
    assert(m == pi_flip_spec(zpos));
    crate::fixed::lemma_tdiv_exact(-65536, SCALE as int);
    assert(mat3_apply_spec(m, zpos) == zneg);
}

/// A product of unit-range factors, rescaled, stays within the second
/// factor.
pub proof fn lemma_unit_product_range(u: int, c: int)
    requires
        0 <= u <= SCALE as int,
        0 <= c <= SCALE as int,
    ensures
        0 <= tdiv(u * c, SCALE as int) <= c,
{
    assert(0 <= u * c <= (SCALE as int) * c) by (nonlinear_arith)
        requires
            0 <= u <= SCALE as int,
            0 <= c,
    ;
    crate::fixed::lemma_tdiv_bounds(u * c, SCALE as int);
    vstd::arithmetic::div_mod::lemma_div_is_ordered(u * c, (SCALE as int) * c, SCALE as int);
    crate::fixed::lemma_tdiv_exact(c, SCALE as int);
    assert((SCALE as int) * c == c * (SCALE as int)) by (nonlinear_arith);
}

/// The occlusion estimator's mean when `k` of its samples were free.
pub open spec fn ao_mean_spec(a: AmbientOcculusionShader, k: int) -> Color {
    Color {
        x: tdiv(k * a.color.x, a.samples as int) as i64,
        y: tdiv(k * a.color.y, a.samples as int) as i64,
        z: tdiv(k * a.color.z, a.samples as int) as i64,
    }
}

/// What each shader variant promises of its color: the Gouraud and Phong
/// formulas exactly, and for the occlusion estimator the mean of some
/// number of unoccluded samples.
pub open spec fn shade_post(s: Shader, h: HitInfo, c: Color) -> bool {
    match s {
        Shader::Gouraud(g) => c == gouraud_spec(g.color, h.n),
        Shader::Phong(p) => c == p.color,
        Shader::AmbientOcculusion(a) => exists|k: int|
            0 <= k <= a.samples && c == #[trigger] ao_mean_spec(a, k),
    }
}

/// The canonical up direction the cosine-hemisphere samples start from.
pub open spec fn z_axis_spec() -> Vec3 {
    Vec3 { x: 0, y: 0, z: SCALE }
}

/// The secondary ray one occlusion sample casts: from the hit point,
/// along the world-space sample direction, from one unit of distance out
/// to infinity.
pub open spec fn ao_ray_spec(p: Vec3, world: Vec3) -> Ray {
    Ray { tmin: 1, tmax: T_INF, origin: p, dir: normalize_spec(world) }
}

/// Whether one occlusion sample finds the hemisphere free: the sample
/// direction, rotated from the canonical axis onto the normal, casts a
/// secondary ray that leaves the world envelope cleanly and hits
/// nothing.  A degenerate sample (hit point outside the envelope, or a
/// direction that collapses to zero) counts as occluded.
pub open spec fn ao_sample_free(shapes: Seq<Shape>, p: Vec3, n: Vec3, s: int, t: int) -> bool {
    let local = warp_point_spec(s, t, WarpFunction::CosineHemisphere);
    let world = mat3_apply_spec(rotate_to_spec(z_axis_spec(), n), local);
    &&& bounded(p, RMAX as int)
    &&& norm_sq_spec(world) > 0
    &&& scene_fold(shapes, ao_ray_spec(p, world), shapes.len() as int) is None
}

/// How many of the sample pairs find the hemisphere free.
pub open spec fn ao_free_count(shapes: Seq<Shape>, p: Vec3, n: Vec3, samples: Seq<(i64, i64)>)
    -> int
    decreases samples.len(),
{
    if samples.len() == 0 {
        0
    } else {
        ao_free_count(shapes, p, n, samples.drop_last()) + if ao_sample_free(shapes, p, n,
            samples.last().0 as int, samples.last().1 as int) {
            1int
        } else {
            0int
        }
    }
}

/// The free count never exceeds the number of samples.
pub proof fn lemma_ao_free_count_range(shapes: Seq<Shape>, p: Vec3, n: Vec3, samples: Seq<(i64,
    i64)>)
    ensures
        0 <= ao_free_count(shapes, p, n, samples) <= samples.len(),
    decreases samples.len(),
{
    if samples.len() > 0 {
        lemma_ao_free_count_range(shapes, p, n, samples.drop_last());
    }
}

/// A fully visible hemisphere yields the full albedo: when every sample
/// is free, the estimator's mean is exactly the base color.
pub proof fn lemma_ao_full_visibility(k: int, n: int, c: int)
    requires
        k == n,
        1 <= n,
    ensures
        tdiv(k * c, n) == c,
{
    crate::fixed::lemma_tdiv_exact(c, n);
    assert(k * c == c * n) by (nonlinear_arith)
        requires
            k == n,
    ;
}

/// Occlusion only darkens: the estimator's mean grows with the free
/// count and never exceeds the base color.
pub proof fn lemma_ao_monotone(k1: int, k2: int, n: int, c: int)
    requires
        0 <= k1 <= k2 <= n,
        1 <= n,
        0 <= c,
    ensures
        0 <= tdiv(k1 * c, n) <= tdiv(k2 * c, n) <= c,
{
    assert(0 <= k1 * c <= k2 * c <= n * c) by (nonlinear_arith)
        requires
            0 <= k1 <= k2 <= n,
            0 <= c,
    ;
    crate::fixed::lemma_tdiv_bounds(k1 * c, n);
    crate::fixed::lemma_tdiv_bounds(k2 * c, n);
    vstd::arithmetic::div_mod::lemma_div_is_ordered(k1 * c, k2 * c, n);
    vstd::arithmetic::div_mod::lemma_div_is_ordered(k2 * c, n * c, n);
    crate::fixed::lemma_tdiv_exact(c, n);
    assert(n * c == c * n) by (nonlinear_arith);
}

impl GouraudShader {
    /// Shades by the normal directly: `color ⊙ (1/2 + n/2)`.
    pub fn shade(&self, hit: &HitInfo, renderer: &Renderer) -> (c: Color)
        requires
            color_wf(self.color),
            hit_wf(*hit),
        ensures
            c == gouraud_spec(self.color, hit.n),
            color_wf(c),
    {
        let half_x = div_fx(hit.n.x, 2);
        let half_y = div_fx(hit.n.y, 2);
        let half_z = div_fx(hit.n.z, 2);
        proof {
            crate::fixed::lemma_tdiv_bounds(hit.n.x as int, 2);
            crate::fixed::lemma_tdiv_bounds(hit.n.y as int, 2);
            crate::fixed::lemma_tdiv_bounds(hit.n.z as int, 2);
        }
        let lifted = Vec3 { x: 32768 + half_x, y: 32768 + half_y, z: 32768 + half_z };
        let clamped = lifted.clamp_vec(0, SCALE);
        let c = clamped.mul_comp(&self.color);
        proof {
            lemma_unit_product_range(
                clamp_spec(32768 + tdiv(hit.n.x as int, 2), 0, SCALE as int),
                self.color.x as int,
            );
            lemma_unit_product_range(
                clamp_spec(32768 + tdiv(hit.n.y as int, 2), 0, SCALE as int),
                self.color.y as int,
            );
            lemma_unit_product_range(
                clamp_spec(32768 + tdiv(hit.n.z as int, 2), 0, SCALE as int),
                self.color.z as int,
            );
        }
        c
    }
}

impl PhongShader {
    /// The extension-point shader: returns the base color unchanged.
    pub fn shade(&self, hit: &HitInfo, renderer: &Renderer) -> (c: Color)
        requires
            color_wf(self.color),
        ensures
            c == self.color,
            color_wf(c),
    {
        self.color
    }
}

impl AmbientOcculusionShader {
    /// Runs the occlusion estimator over caller-supplied unit-square
    /// sample pairs: each is warped to the cosine hemisphere, rotated
    /// onto the normal, and cast as a secondary ray; samples whose ray
    /// misses everything contribute the base color, and the mean over
    /// all samples is returned.  Degenerate samples are absorbed as
    /// occluded rather than aborting the estimate.
    #[verifier::rlimit(60)]
    pub fn shade_with_samples(&self, hit: &HitInfo, renderer: &Renderer, samples: &Vec<(i64,
        i64)>) -> (c: Color)
        requires
            color_wf(self.color),
            0 < self.samples <= 0x10000,
            hit_wf(*hit),
            scene_wf(*renderer.scene),
            samples@.len() == self.samples,
            forall|j: int|
                0 <= j < samples@.len() ==> 0 <= (#[trigger] samples@[j]).0 < SCALE && 0
                    <= samples@[j].1 < SCALE,
        ensures
            ({
                let k = ao_free_count(renderer.scene.shapes@, hit.p, hit.n, samples@);
                c == (Color {
                    x: tdiv(k * self.color.x, self.samples as int) as i64,
                    y: tdiv(k * self.color.y, self.samples as int) as i64,
                    z: tdiv(k * self.color.z, self.samples as int) as i64,
                })
            }),
            shade_post(Shader::AmbientOcculusion(*self), *hit, c),
            color_wf(c),
    {
        let rot = rotate_to(&Vec3 { x: 0, y: 0, z: SCALE }, &hit.n);
        let mut ax: i64 = 0;
        let mut ay: i64 = 0;
        let mut az: i64 = 0;
        let n_usize: usize = samples.len();
        let mut i: usize = 0;
        while i < n_usize
            invariant
                0 <= i <= n_usize,
                n_usize == samples@.len(),
                samples@.len() == self.samples,
                0 < self.samples <= 0x10000,
                color_wf(self.color),
                hit_wf(*hit),
                scene_wf(*renderer.scene),
                forall|j: int|
                    0 <= j < samples@.len() ==> 0 <= (#[trigger] samples@[j]).0 < SCALE && 0
                        <= samples@[j].1 < SCALE,
                rot == rotate_to_spec(z_axis_spec(), hit.n),
                mat3_bounded(rot, 0x100000),
                ({
                    let k = ao_free_count(renderer.scene.shapes@, hit.p, hit.n, samples@.subrange(
                        0, i as int));
                    ax == k * self.color.x && ay == k * self.color.y && az == k * self.color.z
                }),
                0 <= ax <= i * (SCALE as int),
                0 <= ay <= i * (SCALE as int),
                0 <= az <= i * (SCALE as int),
            decreases n_usize - i,
        {
            let ghost prefix = samples@.subrange(0, i as int);
            let ghost k_old = ao_free_count(renderer.scene.shapes@, hit.p, hit.n, prefix);
            let (s, t) = samples[i];
            let local = warp_point(s, t, WarpFunction::CosineHemisphere);
            let world = rot.apply(&local);
            let mut free = false;
            let p = hit.p;
            let in_env = p.x >= -RMAX && p.x <= RMAX && p.y >= -RMAX && p.y <= RMAX && p.z
                >= -RMAX && p.z <= RMAX;
            if in_env {
                let n2w = world.norm_sq();
                if n2w > 0 {
                    let mut sray = Ray::new(&p, world, 1, T_INF);
                    match renderer.intersect(&mut sray) {
                        None => {
                            free = true;
                        },
                        Some(_) => {
                        },
                    }
                }
            }
            proof {
                let shapes = renderer.scene.shapes@;
                assert(free == ao_sample_free(shapes, hit.p, hit.n, s as int, t as int));
                let next = samples@.subrange(0, i as int + 1);
                assert(next.drop_last() =~= prefix);
                assert(next.last() == samples@[i as int]);
                lemma_ao_free_count_range(shapes, hit.p, hit.n, prefix);
                if free {
                    assert((k_old + 1) * self.color.x == k_old * self.color.x + self.color.x)
                        by (nonlinear_arith);
                    assert((k_old + 1) * self.color.y == k_old * self.color.y + self.color.y)
                        by (nonlinear_arith);
                    assert((k_old + 1) * self.color.z == k_old * self.color.z + self.color.z)
                        by (nonlinear_arith);
                }
                assert((i + 1) * (SCALE as int) == i * (SCALE as int) + SCALE) by (nonlinear_arith);
                assert(k_old * self.color.x <= i * (SCALE as int)) by (nonlinear_arith)
                    requires
                        0 <= k_old <= i,
                        0 <= self.color.x <= SCALE as int,
                ;
                assert(k_old * self.color.y <= i * (SCALE as int)) by (nonlinear_arith)
                    requires
                        0 <= k_old <= i,
                        0 <= self.color.y <= SCALE as int,
                ;
                assert(k_old * self.color.z <= i * (SCALE as int)) by (nonlinear_arith)
                    requires
                        0 <= k_old <= i,
                        0 <= self.color.z <= SCALE as int,
                ;
            }
            if free {
                ax = ax + self.color.x;
                ay = ay + self.color.y;
                az = az + self.color.z;
            }
            i = i + 1;
        }
        proof {
            assert(samples@.subrange(0, n_usize as int) =~= samples@);
            let k = ao_free_count(renderer.scene.shapes@, hit.p, hit.n, samples@);
            lemma_ao_free_count_range(renderer.scene.shapes@, hit.p, hit.n, samples@);
            lemma_ao_monotone(k, k, self.samples as int, self.color.x as int);
            lemma_ao_monotone(k, k, self.samples as int, self.color.y as int);
            lemma_ao_monotone(k, k, self.samples as int, self.color.z as int);
        }
        let n_i64: i64 = self.samples as i64;
        let cx = div_fx(ax, n_i64);
        let cy = div_fx(ay, n_i64);
        let cz = div_fx(az, n_i64);
        let result = Vec3 { x: cx, y: cy, z: cz };
        proof {
            let k = ao_free_count(renderer.scene.shapes@, hit.p, hit.n, samples@);
            assert(0 <= k <= self.samples && result == ao_mean_spec(*self, k));
            assert(shade_post(Shader::AmbientOcculusion(*self), *hit, result)) by {
                let sh = Shader::AmbientOcculusion(*self);
                match sh {
                    Shader::AmbientOcculusion(a) => {
                        assert(a == *self);
                        assert(0 <= k <= a.samples && result == ao_mean_spec(a, k));
                    },
                    _ => {
                    },
                }
            }
        }
        result
    }
}

impl AmbientOcculusionShader {
    /// The Monte-Carlo estimator: draws the shader's number of sample
    /// pairs from the thread-local generator and runs
    /// [`Self::shade_with_samples`] on them.  Whatever the generator
    /// returns, the result is the mean of some number of unoccluded
    /// samples of the base color.
    pub fn shade(&self, hit: &HitInfo, renderer: &Renderer) -> (c: Color)
        requires
            color_wf(self.color),
            0 < self.samples <= 0x10000,
            hit_wf(*hit),
            scene_wf(*renderer.scene),
        ensures
            shade_post(Shader::AmbientOcculusion(*self), *hit, c),
            color_wf(c),
    {
        let mut rng = crate::rng::thread_rng_new();
        let mut samples: Vec<(i64, i64)> = Vec::new();
        let n: usize = self.samples as usize;
        let mut i: usize = 0;
        while i < n
            invariant
                0 <= i <= n,
                samples@.len() == i,
                forall|j: int|
                    0 <= j < samples@.len() ==> 0 <= (#[trigger] samples@[j]).0 < SCALE && 0
                        <= samples@[j].1 < SCALE,
            decreases n - i,
        {
            let s = crate::rng::draw_unit(&mut rng);
            let t = crate::rng::draw_unit(&mut rng);
            samples.push((s, t));
            i = i + 1;
        }
        self.shade_with_samples(hit, renderer, &samples)
    }
}

impl Shader {
    /// Dispatches to the variant's shading rule.
    pub fn shade(&self, hit: &HitInfo, renderer: &Renderer) -> (c: Color)
        requires
            shader_wf(*self),
            hit_wf(*hit),
            scene_wf(*renderer.scene),
        ensures
            shade_post(*self, *hit, c),
            color_wf(c),
    {
        match self {
            Shader::Gouraud(g) => g.shade(hit, renderer),
            Shader::Phong(p) => p.shade(hit, renderer),
            Shader::AmbientOcculusion(a) => a.shade(hit, renderer),
        }
    }
}

/// One clamped second-order Rodrigues entry.
fn rodrigues_term(vi: i64, vj: i64, sub: i64, den: i64) -> (r: i64)
    requires
        -0x80000 <= vi <= 0x80000,
        -0x80000 <= vj <= 0x80000,
        0 <= sub <= 0xC0000000000,
        1 <= den,
    ensures
        r == rodrigues_term_spec(vi as int, vj as int, sub as int, den as int),
        -0x40000 <= r <= 0x40000,
{
    let pw = wide_mul(vi, vj);
    proof {
        assert(-0x4000000000 <= vi * vj <= 0x4000000000) by (nonlinear_arith)
            requires
                -0x80000 <= vi <= 0x80000,
                -0x80000 <= vj <= 0x80000,
        ;
        lemma_tdiv_shrink(vi * vj, 0x4000000000, SCALE as int);
    }
    let t: i128 = div_wide(pw, SCALE as i128) - (sub as i128);
    let tw: i128 = t * (SCALE as i128);
    proof {
        crate::fixed::lemma_tdiv_bounds((t * (SCALE as int)) as int, den as int);
    }
    let q: i128 = div_wide(tw, den as i128);
    let qc: i64 = if q < -0x40000 {
        -0x40000
    } else if q > 0x40000 {
        0x40000
    } else {
        q as i64
    };
    qc
}

} // verus!
