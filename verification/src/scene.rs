//! The scene: a fixed, read-only collection of shapes.

use vstd::prelude::*;
use crate::types::{Vec3, Color};
use crate::shader::{Shader, AmbientOcculusionShader};
use crate::shape::{Shape, Sphere, shape_wf};

verus! {

/// Owns the shapes queried by every nearest-hit scan.  Fixed at
/// construction; rendering never mutates it.
pub struct Scene {
    pub shapes: Vec<Shape>,
}

/// Every shape of the scene is valid.
pub open spec fn scene_wf(s: Scene) -> bool {
    forall|i: int| 0 <= i < s.shapes@.len() ==> shape_wf(#[trigger] s.shapes@[i])
}

/// Why a shape was rejected at scene construction.
#[derive(Clone, Copy, Debug, PartialEq, Eq, Structural)]
pub enum ShapeError {
    /// A sphere radius was zero or negative.
    NonPositiveRadius,
    /// A coordinate or radius exceeded the world envelope.
    OutOfEnvelope,
    /// A shader color channel was outside `[0, 1]`, or a sample count
    /// outside its range.
    InvalidShader,
}

impl Scene {
    /// Builds the demonstration scene: three unit spheres above a huge
    /// floor sphere, all shaded by ambient occlusion.
    pub fn new() -> (s: Scene)
        ensures
            scene_wf(s),
            s.shapes@.len() == 4,
    {
        let ambient_occlusion_shader = Shader::AmbientOcculusion(
            AmbientOcculusionShader {
                samples: 256,
                color: Vec3 { x: 48572, y: 48572, z: 48572 },
            },
        );
        let mut shapes: Vec<Shape> = Vec::new();
        shapes.push(
            Shape::Sphere(
                Sphere {
                    position: Vec3 { x: -131072, y: 0, z: 0 },
                    radius: 65536,
                    shader: ambient_occlusion_shader,
                },
            ),
        );
        shapes.push(
            Shape::Sphere(
                Sphere {
                    position: Vec3 { x: 131072, y: 0, z: 0 },
                    radius: 65536,
                    shader: ambient_occlusion_shader,
                },
            ),
        );
        shapes.push(
            Shape::Sphere(
                Sphere {
                    position: Vec3 { x: 0, y: 65536, z: 0 },
                    radius: 65536,
                    shader: ambient_occlusion_shader,
                },
            ),
        );
        shapes.push(
            Shape::Sphere(
                Sphere {
                    position: Vec3 { x: 0, y: 0, z: -655360065536 },
                    radius: 655360000000,
                    shader: ambient_occlusion_shader,
                },
            ),
        );
        let scene = Scene { shapes };
        proof {
            assert(forall|i: int|
                0 <= i < scene.shapes@.len() ==> shape_wf(#[trigger] scene.shapes@[i]));
        }
        scene
    }

    /// Builds a scene from caller-supplied shapes, rejecting any invalid
    /// one: `Err` names the first problem found, and `Ok` holds a scene
    /// of exactly the given shapes.
    pub fn from_shapes(shapes: Vec<Shape>) -> (r: Result<Scene, ShapeError>)
        ensures
            match r {
                Ok(s) => scene_wf(s) && s.shapes@ == shapes@,
                Err(_) => exists|i: int| 0 <= i < shapes@.len() && !shape_wf(shapes@[i]),
            },
    {
        let n = shapes.len();
        let mut i: usize = 0;
        while i < n
            invariant
                0 <= i <= n,
                n == shapes@.len(),
                forall|j: int| 0 <= j < i ==> shape_wf(#[trigger] shapes@[j]),
            decreases n - i,
        {
            match check_shape(&shapes[i]) {
                Ok(()) => {
                },
                Err(e) => {
                    return Err(e);
                },
            }
            i = i + 1;
        }
        Ok(Scene { shapes })
    }
}

/// Validates one shape at runtime, reporting exactly [`shape_wf`].
fn check_shape(s: &Shape) -> (r: Result<(), ShapeError>)
    ensures
        r is Ok <==> shape_wf(*s),
{
    match s {
        Shape::Sphere(sp) => {
            if sp.radius <= 0 {
                return Err(ShapeError::NonPositiveRadius);
            }
            if sp.radius > crate::shape::WMAX {
                return Err(ShapeError::OutOfEnvelope);
            }
            let p = sp.position;
            if p.x < -crate::shape::WMAX || p.x > crate::shape::WMAX || p.y < -crate::shape::WMAX
                || p.y > crate::shape::WMAX || p.z < -crate::shape::WMAX || p.z
                > crate::shape::WMAX {
                return Err(ShapeError::OutOfEnvelope);
            }
            if !check_shader(&sp.shader) {
                return Err(ShapeError::InvalidShader);
            }
            Ok(())
        },
    }
}

/// Validates one shader at runtime, reporting exactly
/// [`crate::shader::shader_wf`].
fn check_shader(s: &Shader) -> (r: bool)
    ensures
        r == crate::shader::shader_wf(*s),
{
    match s {
        Shader::Gouraud(g) => check_color(&g.color),
        Shader::Phong(p) => check_color(&p.color),
        Shader::AmbientOcculusion(a) => check_color(&a.color) && 0 < a.samples && a.samples
            <= 0x10000,
    }
}

/// Reports exactly [`crate::shader::color_wf`].
fn check_color(c: &Color) -> (r: bool)
    ensures
        r == crate::shader::color_wf(*c),
{
    0 <= c.x && c.x <= crate::fixed::SCALE && 0 <= c.y && c.y <= crate::fixed::SCALE && 0 <= c.z
        && c.z <= crate::fixed::SCALE
}

} // verus!
