//! Per-pixel image synthesis.
//!
//! The loop here is the serial reference: every pixel of the
//! `[0, width) x [0, height)` grid gets exactly one color, computed as a
//! pure function of the scene, the camera and the pixel coordinate (up
//! to the sampling a Monte-Carlo shader draws).  Parallel drivers
//! dispatch the same per-pixel work to workers and must produce the
//! same buffer for deterministic shaders.

use vstd::prelude::*;
use crate::fixed::{tdiv, clamp_spec, div_wide, SCALE};
use crate::types::{Vec3, Color, bounded, wide_mul};
use crate::camera::{Camera, camera_wf, generate_ray_spec};
use crate::scene::{Scene, scene_wf};
use crate::renderer::{Renderer, scene_fold, background_spec};
use crate::shader::{Shader, shade_post};
use crate::shape::Shape;

verus! {

/// A render target: a camera and the pixel grid it fills.
pub struct Window {
    pub camera: Camera,
    pub width: u32,
    pub height: u32,
}

/// What one pixel's color must be: the background when the pixel's ray
/// cannot be generated or hits nothing, and a color consistent with the
/// hit shape's shader otherwise.
pub open spec fn pixel_post(shapes: Seq<Shape>, cam: Camera, x: int, y: int, c: Color) -> bool {
    match generate_ray_spec(cam, x, y) {
        Result::Err(_) => c == background_spec(),
        Result::Ok(ray) => match scene_fold(shapes, ray, shapes.len() as int) {
            Option::None => c == background_spec(),
            Option::Some(h) => shade_post(h.shader, h, c),
        },
    }
}

/// A deterministic shader pins its color: no Monte-Carlo estimator is
/// involved.
pub open spec fn shader_deterministic(s: Shader) -> bool {
    !(s is AmbientOcculusion)
}

/// Rendering is a pure function of scene, camera and pixel: when the hit
/// shape's shader is deterministic, any two colors satisfying the pixel
/// contract are equal, so a parallel driver writing each pixel once
/// must reproduce the serial image.
pub proof fn lemma_pixel_deterministic(shapes: Seq<Shape>, cam: Camera, x: int, y: int, c1:
    Color, c2: Color)
    requires
        pixel_post(shapes, cam, x, y, c1),
        pixel_post(shapes, cam, x, y, c2),
        match generate_ray_spec(cam, x, y) {
            Result::Err(_) => true,
            Result::Ok(ray) => match scene_fold(shapes, ray, shapes.len() as int) {
                Option::None => true,
                Option::Some(h) => shader_deterministic(h.shader),
            },
        },
    ensures
        c1 == c2,
{
}

impl Window {
    /// Builds a window with its own camera at the given resolution.
    pub fn new(width: u32, height: u32) -> (w: Window)
        ensures
            w.width == width,
            w.height == height,
            ({
                let base = crate::camera::camera_defaults(width, height);
                w.camera == (match crate::camera::update_spec(base) {
                    Result::Ok(c2) => c2,
                    Result::Err(_) => base,
                })
            }),
            camera_wf(w.camera),
    {
        Window { camera: Camera::new(width, height), width, height }
    }

    /// Renders every pixel once, in row-major order: the result holds
    /// `width * height` colors, and the color at index `i` satisfies the
    /// pixel contract for the coordinate `(i % width, i / width)`.
    pub fn render_image(&self, scene: &Scene) -> (img: Vec<Color>)
        requires
            scene_wf(*scene),
            camera_wf(self.camera),
            self.camera.valid,
            bounded(self.camera.position, 0x80000000),
            self.camera.resolution == (self.width, self.height),
            1 <= self.width <= 4096,
            1 <= self.height <= 4096,
        ensures
            img@.len() == self.width * self.height,
            forall|i: int|
                0 <= i < img@.len() ==> pixel_post(
                    scene.shapes@,
                    self.camera,
                    i % (self.width as int),
                    i / (self.width as int),
                    #[trigger] img@[i],
                ),
    {
        let renderer = Renderer::new(scene);
        let w = self.width;
        let h = self.height;
        proof {
            assert(0 <= (w as int) * (h as int) <= 0x1000000) by (nonlinear_arith)
                requires
                    1 <= w as int <= 4096,
                    1 <= h as int <= 4096,
            ;
        }
        let mut img: Vec<Color> = Vec::new();
        let mut y: u32 = 0;
        while y < h
            invariant
                0 <= y <= h,
                img@.len() == y * w,
                scene_wf(*scene),
                camera_wf(self.camera),
                self.camera.valid,
                bounded(self.camera.position, 0x80000000),
                self.camera.resolution == (self.width, self.height),
                1 <= w <= 4096,
                1 <= h <= 4096,
                w == self.width,
                h == self.height,
                renderer.scene == scene,
                forall|i: int|
                    0 <= i < img@.len() ==> pixel_post(scene.shapes@, self.camera, i % (
                    w as int), i / (w as int), #[trigger] img@[i]),
            decreases h - y,
        {
            let mut x: u32 = 0;
            proof {
                assert((y as int) * (w as int) + w <= 0x1000000 && 0 <= (y as int) * (w as int))
                    by (nonlinear_arith)
                    requires
                        0 <= (y as int) < h as int,
                        1 <= w as int <= 4096,
                        1 <= h as int <= 4096,
                ;
            }
            while x < w
                invariant
                    0 <= x <= w,
                    0 <= y < h,
                    img@.len() == y * w + x,
                    (y as int) * (w as int) + w <= 0x1000000,
                    0 <= (y as int) * (w as int),
                    scene_wf(*scene),
                    camera_wf(self.camera),
                    self.camera.valid,
                    bounded(self.camera.position, 0x80000000),
                    self.camera.resolution == (self.width, self.height),
                    1 <= w <= 4096,
                    1 <= h <= 4096,
                    w == self.width,
                    h == self.height,
                    renderer.scene == scene,
                    forall|i: int|
                        0 <= i < img@.len() ==> pixel_post(scene.shapes@, self.camera, i % (
                        w as int), i / (w as int), #[trigger] img@[i]),
                decreases w - x,
            {
                let c = match self.camera.generate_ray(x, y) {
                    Err(_) => Vec3::zero(),
                    Ok(mut ray) => renderer.render(&mut ray),
                };
                proof {
                    let i = img@.len() as int;
                    assert(i == (w as int) * (y as int) + x as int) by (nonlinear_arith)
                        requires
                            i == (y as int) * (w as int) + x as int,
                    ;
                    vstd::arithmetic::div_mod::lemma_fundamental_div_mod_converse(i, w as int,
                        y as int, x as int);
                    assert(i % (w as int) == x as int && i / (w as int) == y as int);
                }
                img.push(c);
                x = x + 1;
            }
            y = y + 1;
            proof {
                assert((y as int) * (w as int) == (y - 1) * (w as int) + w) by (nonlinear_arith);
            }
        }
        proof {
            assert((h as int) * (w as int) == (w as int) * (h as int)) by (nonlinear_arith);
        }
        img
    }
}

/// One output channel of the pixel sink: the color scaled to `[0, 255]`
/// and clamped.
pub open spec fn byte_of_channel(v: int) -> int {
    clamp_spec(tdiv(v * 255, SCALE as int), 0, 255)
}

/// Quantizes one color channel for an 8-bit sink.
pub fn color_channel_byte(v: i64) -> (r: u8)
    ensures
        r == byte_of_channel(v as int),
{
    let wide = wide_mul(v, 255);
    proof {
        crate::fixed::lemma_tdiv_bounds((v as int) * 255, SCALE as int);
    }
    let q = div_wide(wide, SCALE as i128);
    if q < 0 {
        0
    } else if q > 255 {
        255
    } else {
        q as u8
    }
}

/// Quantizes a color to the three 8-bit channels a pixel sink stores.
pub fn color_to_bytes(c: &Color) -> (r: (u8, u8, u8))
    ensures
        r.0 == byte_of_channel(c.x as int),
        r.1 == byte_of_channel(c.y as int),
        r.2 == byte_of_channel(c.z as int),
{
    (color_channel_byte(c.x), color_channel_byte(c.y), color_channel_byte(c.z))
}

} // verus!
