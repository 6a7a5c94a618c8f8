//! Nearest-hit scans over the whole scene.

use vstd::prelude::*;
use crate::ray::{Ray, ray_wf};
use crate::hit::{HitInfo, hit_wf};
use crate::scene::{Scene, scene_wf};
use crate::shape::{Shape, shape_hit_spec};

verus! {

/// Answers nearest-hit queries and shades rays against one scene.
pub struct Renderer<'a> {
    pub scene: &'a Scene,
}

/// The ray as it stands after recording `best`: `tmax` tightened to the
/// best hit's distance, all else unchanged.
pub open spec fn ray_with_best(ray: Ray, best: Option<HitInfo>) -> Ray {
    match best {
        Option::None => ray,
        Option::Some(h) => Ray { tmax: h.d, tmin: ray.tmin, origin: ray.origin, dir: ray.dir },
    }
}

/// The left fold of the nearest-hit scan over the first `n` shapes: each
/// shape is tested against the ray tightened by the best hit so far, so a
/// later shape can only report a closer hit (ties: the last shape tested
/// wins).
pub open spec fn scene_fold(shapes: Seq<Shape>, ray: Ray, n: int) -> Option<HitInfo>
    decreases n,
{
    if n <= 0 {
        Option::None
    } else {
        let prev = scene_fold(shapes, ray, n - 1);
        match shape_hit_spec(shapes[n - 1], ray_with_best(ray, prev)) {
            Option::Some(h) => Option::Some(h),
            Option::None => prev,
        }
    }
}

impl<'a> Renderer<'a> {
    /// Wraps a scene for rendering.
    pub fn new(scene: &'a Scene) -> (r: Renderer<'a>)
        ensures
            r.scene == scene,
    {
        Renderer { scene }
    }

    /// Scans every shape in stored order, tightening the ray's `tmax` to
    /// each recorded hit so that later shapes can only report closer
    /// hits; returns exactly the left fold [`scene_fold`] and leaves the
    /// ray tightened to the returned hit.
    pub fn intersect(&self, ray: &mut Ray) -> (res: Option<HitInfo>)
        requires
            scene_wf(*self.scene),
            ray_wf(*old(ray)),
        ensures
            res == scene_fold(self.scene.shapes@, *old(ray), self.scene.shapes@.len() as int),
            *final(ray) == ray_with_best(*old(ray), res),
            ray_wf(*final(ray)),
            res matches Some(h) ==> hit_wf(h),
    {
        let ghost ray0 = *ray;
        let mut value: Option<HitInfo> = None;
        let n = self.scene.shapes.len();
        let mut i: usize = 0;
        while i < n
            invariant
                0 <= i <= n,
                n == self.scene.shapes@.len(),
                scene_wf(*self.scene),
                value == scene_fold(self.scene.shapes@, ray0, i as int),
                *ray == ray_with_best(ray0, value),
                ray_wf(*ray),
                ray_wf(ray0),
                value matches Some(h) ==> hit_wf(h),
            decreases n - i,
        {
            match self.scene.shapes[i].intersect(ray) {
                None => {
                },
                Some(hit) => {
                    ray.tmax = hit.d;
                    value = Some(hit);
                },
            }
            i = i + 1;
        }
        value
    }
}

/// The color of a missed ray.
pub open spec fn background_spec() -> crate::types::Color {
    crate::types::Vec3 { x: 0, y: 0, z: 0 }
}

impl<'a> Renderer<'a> {
    /// Shades one ray: the background color on a miss, and the hit
    /// shape's shader on the nearest hit, which may cast further rays
    /// through this renderer.
    pub fn render(&self, ray: &mut Ray) -> (c: crate::types::Color)
        requires
            scene_wf(*self.scene),
            ray_wf(*old(ray)),
        ensures
            ({
                let res = scene_fold(self.scene.shapes@, *old(ray), self.scene.shapes@.len() as int);
                match res {
                    Option::None => c == background_spec(),
                    Option::Some(h) => crate::shader::shade_post(h.shader, h, c),
                }
            }),
            *final(ray) == ray_with_best(
                *old(ray),
                scene_fold(self.scene.shapes@, *old(ray), self.scene.shapes@.len() as int),
            ),
            crate::shader::color_wf(c),
    {
        match self.intersect(ray) {
            None => crate::types::Vec3::zero(),
            Some(hit) => hit.shader.shade(&hit, self),
        }
    }
}

/// The incremental scan only ever gets closer: once some prefix of the
/// shapes has produced a hit, every longer prefix produces a hit at most
/// that far, because each later shape is tested against the window
/// tightened to the best distance so far.
pub proof fn lemma_scene_fold_monotone(shapes: Seq<Shape>, ray: Ray, k: int, n: int)
    requires
        0 <= k <= n <= shapes.len(),
        scene_fold(shapes, ray, k) is Some,
    ensures
        scene_fold(shapes, ray, n) matches Some(h) && h.d <= scene_fold(shapes, ray,
            k).unwrap().d,
    decreases n - k,
{
    if k < n {
        lemma_scene_fold_monotone(shapes, ray, k, n - 1);
        let prev = scene_fold(shapes, ray, n - 1);
        let tightened = ray_with_best(ray, prev);
        match shape_hit_spec(shapes[n - 1], tightened) {
            Option::Some(h) => {
                assert(h.d <= tightened.tmax) by {
                    lemma_shape_hit_within_window(shapes[n - 1], tightened);
                }
            },
            Option::None => {
            },
        }
    }
}

/// Any reported hit lies within the queried ray's far bound.
pub proof fn lemma_shape_hit_within_window(s: Shape, ray: Ray)
    ensures
        shape_hit_spec(s, ray) matches Some(h) ==> h.d <= ray.tmax,
{
}

/// A hit returned by the fold lies within the incoming window's far
/// bound: tightening never widens the window.
pub proof fn lemma_scene_fold_tightens(shapes: Seq<Shape>, ray: Ray, n: int)
    requires
        0 <= n <= shapes.len(),
    ensures
        scene_fold(shapes, ray, n) matches Some(h) ==> h.d <= ray.tmax,
    decreases n,
{
    if n > 0 {
        lemma_scene_fold_tightens(shapes, ray, n - 1);
        let prev = scene_fold(shapes, ray, n - 1);
        let tightened = ray_with_best(ray, prev);
        assert(tightened.tmax <= ray.tmax);
    }
}

} // verus!
