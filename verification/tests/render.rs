use raytracer::fixed::SCALE;
use raytracer::types::Vec3;
use raytracer::ray::{Ray, T_INF};
use raytracer::hit::HitInfo;
use raytracer::shape::{Shape, Sphere};
use raytracer::shader::{Shader, GouraudShader, AmbientOcculusionShader};
use raytracer::scene::{Scene, ShapeError};
use raytracer::renderer::Renderer;
use raytracer::camera::{Camera, CameraError};
use raytracer::window::{Window, color_to_bytes};
use raytracer::mat::{m4_mul_wide, m4_scalar_exec, m4_eq};

fn gray() -> Vec3 {
    Vec3 { x: 32768, y: 32768, z: 32768 }
}

fn gouraud_red() -> Shader {
    Shader::Gouraud(GouraudShader { color: Vec3 { x: SCALE, y: 0, z: 0 } })
}

fn unit_sphere_at(x: i64, y: i64, z: i64, shader: Shader) -> Shape {
    Shape::Sphere(Sphere { position: Vec3 { x, y, z }, radius: SCALE, shader })
}

#[test]
fn ray_new_keeps_exact_unit_direction() {
    let o = Vec3 { x: 0, y: 0, z: 0 };
    let d = Vec3 { x: 0, y: 0, z: SCALE };
    let r = Ray::new(&o, d, 0, T_INF);
    assert_eq!(r.dir, d);
    assert_eq!(r.tmin, 0);
    assert_eq!(r.tmax, T_INF);
}

#[test]
fn ray_new_normalizes_scaled_direction() {
    let o = Vec3 { x: 0, y: 0, z: 0 };
    let d = Vec3 { x: 0, y: 0, z: 4 * SCALE };
    let r = Ray::new(&o, d, 0, T_INF);
    assert_eq!(r.dir, Vec3 { x: 0, y: 0, z: SCALE });
}

#[test]
fn ray_new_normalizes_axis_blend_approximately() {
    let o = Vec3 { x: 0, y: 0, z: 0 };
    let d = Vec3 { x: 3 * SCALE, y: 4 * SCALE, z: 0 };
    let r = Ray::new(&o, d, 0, T_INF);
    // 3-4-5 triangle: the exact unit direction is (3/5, 4/5, 0)
    assert!((r.dir.x - 39321).abs() <= 2);
    assert!((r.dir.y - 52428).abs() <= 2);
    assert_eq!(r.dir.z, 0);
}

#[test]
fn sphere_tangent_ray_grazes_at_projection_foot() {
    // unit sphere at origin; the ray runs along x at height y = 1,
    // tangent to the sphere's top
    let s = Sphere {
        position: Vec3 { x: 0, y: 0, z: 0 },
        radius: SCALE,
        shader: gouraud_red(),
    };
    let o = Vec3 { x: -10 * SCALE, y: SCALE, z: 0 };
    let ray = Ray::new(&o, Vec3 { x: SCALE, y: 0, z: 0 }, 0, T_INF);
    let hit = s.intersect(&ray).expect("tangent ray must hit");
    // the hit distance is the center's projection onto the ray
    assert_eq!(hit.d, 10 * SCALE);
    // the normal points along +y, perpendicular to the ray direction
    assert_eq!(hit.n, Vec3 { x: 0, y: SCALE, z: 0 });
    assert_eq!(hit.n.x * ray.dir.x + hit.n.y * ray.dir.y + hit.n.z * ray.dir.z, 0);
}

#[test]
fn sphere_miss_beyond_radius() {
    let s = Sphere {
        position: Vec3 { x: 0, y: 0, z: 0 },
        radius: SCALE,
        shader: gouraud_red(),
    };
    let o = Vec3 { x: -10 * SCALE, y: SCALE + 1, z: 0 };
    let ray = Ray::new(&o, Vec3 { x: SCALE, y: 0, z: 0 }, 0, T_INF);
    assert!(s.intersect(&ray).is_none());
}

#[test]
fn sphere_near_root_is_taken_and_far_root_never_substituted() {
    let s = Sphere {
        position: Vec3 { x: 5 * SCALE, y: 0, z: 0 },
        radius: SCALE,
        shader: gouraud_red(),
    };
    let o = Vec3 { x: 0, y: 0, z: 0 };
    let ray = Ray::new(&o, Vec3 { x: SCALE, y: 0, z: 0 }, 0, T_INF);
    let hit = s.intersect(&ray).expect("must hit");
    assert_eq!(hit.d, 4 * SCALE);
    // a ray starting inside the sphere is a miss by design
    let inside = Vec3 { x: 5 * SCALE, y: 0, z: 0 };
    let ray2 = Ray::new(&inside, Vec3 { x: SCALE, y: 0, z: 0 }, 2 * SCALE, T_INF);
    assert!(s.intersect(&ray2).is_none());
}

#[test]
fn renderer_keeps_nearest_hit_in_any_order() {
    let near = unit_sphere_at(5 * SCALE, 0, 0, gouraud_red());
    let far = unit_sphere_at(10 * SCALE, 0, 0, gouraud_red());
    let o = Vec3 { x: 0, y: 0, z: 0 };
    for shapes in [vec![near, far], vec![far, near]] {
        let scene = Scene { shapes };
        let renderer = Renderer::new(&scene);
        let mut ray = Ray::new(&o, Vec3 { x: SCALE, y: 0, z: 0 }, 0, T_INF);
        let hit = renderer.intersect(&mut ray).expect("must hit");
        assert_eq!(hit.d, 4 * SCALE);
        assert_eq!(ray.tmax, 4 * SCALE);
    }
}

#[test]
fn render_miss_returns_background() {
    let scene = Scene { shapes: vec![unit_sphere_at(5 * SCALE, 0, 0, gouraud_red())] };
    let renderer = Renderer::new(&scene);
    let o = Vec3 { x: 0, y: 0, z: 0 };
    let mut ray = Ray::new(&o, Vec3 { x: 0, y: 0, z: SCALE }, 0, T_INF);
    let c = renderer.render(&mut ray);
    assert_eq!(c, Vec3 { x: 0, y: 0, z: 0 });
}

#[test]
fn gouraud_shades_by_normal() {
    let scene = Scene { shapes: vec![unit_sphere_at(5 * SCALE, 0, 0, gouraud_red())] };
    let renderer = Renderer::new(&scene);
    let o = Vec3 { x: 0, y: 0, z: 0 };
    let mut ray = Ray::new(&o, Vec3 { x: SCALE, y: 0, z: 0 }, 0, T_INF);
    let c = renderer.render(&mut ray);
    // the hit normal is -x, so the red channel is (1/2 - 1/2) * 1 = 0
    assert_eq!(c, Vec3 { x: 0, y: 0, z: 0 });
    // a ray grazing the top: normal +y, red channel 1/2
    let o2 = Vec3 { x: 0, y: SCALE, z: 0 };
    let mut ray2 = Ray::new(&o2, Vec3 { x: SCALE, y: 0, z: 0 }, 0, T_INF);
    let c2 = renderer.render(&mut ray2);
    assert_eq!(c2.x, 32768);
    assert_eq!(c2.y, 0);
    assert_eq!(c2.z, 0);
}

#[test]
fn scene_new_builds_the_demo_scene() {
    let scene = Scene::new();
    assert_eq!(scene.shapes.len(), 4);
    let Shape::Sphere(first) = &scene.shapes[0];
    assert_eq!(first.position, Vec3 { x: -2 * SCALE, y: 0, z: 0 });
    assert_eq!(first.radius, SCALE);
    match first.shader {
        Shader::AmbientOcculusion(a) => {
            assert_eq!(a.samples, 256);
            assert_eq!(a.color, Vec3 { x: 48572, y: 48572, z: 48572 });
        },
        _ => panic!("demo scene uses the occlusion shader"),
    }
    let Shape::Sphere(floor) = &scene.shapes[3];
    assert_eq!(floor.radius, 655360000000);
}

#[test]
fn scene_from_shapes_rejects_bad_radius() {
    let bad = Shape::Sphere(Sphere {
        position: Vec3 { x: 0, y: 0, z: 0 },
        radius: 0,
        shader: gouraud_red(),
    });
    assert_eq!(
        Scene::from_shapes(vec![bad]).err(),
        Some(ShapeError::NonPositiveRadius)
    );
}

#[test]
fn scene_from_shapes_rejects_bad_shader() {
    let bad = Shape::Sphere(Sphere {
        position: Vec3 { x: 0, y: 0, z: 0 },
        radius: SCALE,
        shader: Shader::Gouraud(GouraudShader { color: Vec3 { x: -1, y: 0, z: 0 } }),
    });
    assert_eq!(Scene::from_shapes(vec![bad]).err(), Some(ShapeError::InvalidShader));
}

#[test]
fn scene_from_shapes_rejects_out_of_envelope() {
    let bad = Shape::Sphere(Sphere {
        position: Vec3 { x: i64::MAX / 2, y: 0, z: 0 },
        radius: SCALE,
        shader: gouraud_red(),
    });
    assert_eq!(Scene::from_shapes(vec![bad]).err(), Some(ShapeError::OutOfEnvelope));
}

fn sample_grid(n: usize) -> Vec<(i64, i64)> {
    // the center sample pair maps to the straight-up direction
    vec![(32768, 32768); n]
}

#[test]
fn ao_with_free_hemisphere_returns_full_albedo() {
    let ao = AmbientOcculusionShader { samples: 16, color: gray() };
    let scene = Scene { shapes: vec![unit_sphere_at(0, 0, -2 * SCALE, Shader::AmbientOcculusion(ao))] };
    let renderer = Renderer::new(&scene);
    // a point on top of the sphere, normal up: nothing occludes above
    let p = Vec3 { x: 0, y: 0, z: -SCALE };
    let hit = HitInfo::new(
        Shader::AmbientOcculusion(ao),
        SCALE,
        Vec3 { x: 0, y: 0, z: SCALE },
        p,
        Vec3 { x: 0, y: 0, z: 2 * SCALE },
        Vec3 { x: 0, y: 0, z: SCALE },
    );
    let c = ao.shade_with_samples(&hit, &renderer, &sample_grid(16));
    assert_eq!(c, gray());
}

#[test]
fn ao_fully_blocked_above_returns_black() {
    let ao = AmbientOcculusionShader { samples: 16, color: gray() };
    let blocker = unit_sphere_at(0, 0, 3 * SCALE, Shader::AmbientOcculusion(ao));
    let scene = Scene { shapes: vec![blocker] };
    let renderer = Renderer::new(&scene);
    let p = Vec3 { x: 0, y: 0, z: 0 };
    let hit = HitInfo::new(
        Shader::AmbientOcculusion(ao),
        SCALE,
        Vec3 { x: 0, y: 0, z: SCALE },
        p,
        Vec3 { x: 0, y: 0, z: 2 * SCALE },
        Vec3 { x: 0, y: 0, z: SCALE },
    );
    // every center sample casts straight up into the blocker
    let c = ao.shade_with_samples(&hit, &renderer, &sample_grid(16));
    assert_eq!(c, Vec3 { x: 0, y: 0, z: 0 });
}

#[test]
fn ao_with_thread_rng_is_full_albedo_when_unoccluded() {
    let ao = AmbientOcculusionShader { samples: 64, color: gray() };
    let scene = Scene { shapes: vec![unit_sphere_at(0, 0, -4 * SCALE, Shader::AmbientOcculusion(ao))] };
    let renderer = Renderer::new(&scene);
    let hit = HitInfo::new(
        Shader::AmbientOcculusion(ao),
        SCALE,
        Vec3 { x: 0, y: 0, z: SCALE },
        Vec3 { x: 0, y: 0, z: 0 },
        Vec3 { x: 0, y: 0, z: 2 * SCALE },
        Vec3 { x: 0, y: 0, z: SCALE },
    );
    // whatever the generator draws, every upward ray misses
    let c = ao.shade(&hit, &renderer);
    assert_eq!(c, gray());
}

#[test]
fn camera_screen_to_world_is_exact_projective_inverse() {
    let cam = Camera::new(640, 480);
    assert!(cam.valid);
    assert_ne!(cam.det_ndc, 0);
    let prod = m4_mul_wide(&cam.world_to_ndc, &cam.screen_to_world);
    let want = m4_scalar_exec(cam.det_ndc);
    assert!(m4_eq(&prod, &want));
}

#[test]
fn camera_rejects_zero_resolution() {
    let mut cam = Camera::new(640, 480);
    let before = cam.world_to_ndc;
    assert_eq!(cam.set_size(0, 480), Err(CameraError::DegenerateResolution));
    // the previous transform stays in place
    assert_eq!(cam.world_to_ndc, before);
    assert!(cam.valid);
}

#[test]
fn camera_rejects_up_parallel_to_front() {
    let mut cam = Camera::new(640, 480);
    let before = cam.screen_to_world;
    let r = cam.set_up(Vec3 { x: 0, y: SCALE, z: 0 });
    assert_eq!(r, Err(CameraError::DegenerateOrientation));
    assert_eq!(cam.screen_to_world, before);
}

#[test]
fn camera_frustum_depth_matches_clip_range() {
    // the ray window spans from the near-plane to the far-plane
    // unprojection of the pixel
    let cam = Camera::new(64, 48);
    let ray = cam.generate_ray(32, 24).expect("center ray");
    // near = 0.01, far = 10000 in front of the eye
    assert!(ray.tmin >= 600 && ray.tmin <= 720);
    assert!(ray.tmax >= 9990 * SCALE);
    assert!(ray.tmin <= ray.tmax);
}

#[test]
fn end_to_end_center_pixel_hits_and_corner_misses() {
    // one unit sphere at the origin, camera on its axis looking at it
    let scene = Scene { shapes: vec![unit_sphere_at(0, 0, 0, gouraud_red())] };
    let window = Window::new(64, 48);
    assert!(window.camera.valid);
    let renderer = Renderer::new(&scene);
    let mut center = window.camera.generate_ray(32, 24).expect("center ray");
    let hit = renderer.intersect(&mut center).expect("center pixel must hit the sphere");
    // the normal faces the camera
    let d = &center.dir;
    let facing = hit.n.x * -d.x + hit.n.y * -d.y + hit.n.z * -d.z;
    assert!(facing > 0);
    // a corner pixel misses the sphere and keeps the background color
    let mut corner = window.camera.generate_ray(0, 0).expect("corner ray");
    let c = renderer.render(&mut corner);
    assert_eq!(c, Vec3 { x: 0, y: 0, z: 0 });
}

#[test]
fn serial_rendering_is_deterministic() {
    let scene = Scene { shapes: vec![unit_sphere_at(0, 0, 0, gouraud_red())] };
    let window = Window::new(16, 12);
    let img1 = window.render_image(&scene);
    let img2 = window.render_image(&scene);
    assert_eq!(img1.len(), 16 * 12);
    assert_eq!(img1, img2);
    // the per-pixel loop agrees with driving the pipeline by hand
    let renderer = Renderer::new(&scene);
    for (x, y) in [(0u32, 0u32), (8, 6), (15, 11)] {
        let c = match window.camera.generate_ray(x, y) {
            Err(_) => Vec3 { x: 0, y: 0, z: 0 },
            Ok(mut ray) => renderer.render(&mut ray),
        };
        assert_eq!(img1[(y * 16 + x) as usize], c);
    }
}

#[test]
fn color_quantization_clamps_and_scales() {
    assert_eq!(color_to_bytes(&Vec3 { x: SCALE, y: 0, z: -5 }), (255, 0, 0));
    assert_eq!(color_to_bytes(&Vec3 { x: 32768, y: 2 * SCALE, z: 65536 }), (127, 255, 255));
}

#[test]
fn camera_mutators_rebuild_the_chain() {
    let mut cam = Camera::new(64, 48);
    assert!(cam.valid);
    let before = cam.world_to_ndc;
    assert_eq!(cam.set_position(&Vec3 { x: 0, y: -20 * SCALE, z: 0 }), Ok(()));
    assert!(cam.valid);
    assert_ne!(cam.world_to_ndc, before);
    assert_eq!(cam.set_size(32, 32), Ok(()));
    assert_eq!(cam.aspect, SCALE);
}

#[test]
fn phong_shader_returns_base_color() {
    let phong = Shader::Phong(raytracer::shader::PhongShader {
        color: Vec3 { x: 1000, y: 2000, z: 3000 },
    });
    let scene = Scene { shapes: vec![unit_sphere_at(5 * SCALE, 0, 0, phong)] };
    let renderer = Renderer::new(&scene);
    let o = Vec3 { x: 0, y: 0, z: 0 };
    let mut ray = Ray::new(&o, Vec3 { x: SCALE, y: 0, z: 0 }, 0, T_INF);
    let c = renderer.render(&mut ray);
    assert_eq!(c, Vec3 { x: 1000, y: 2000, z: 3000 });
}

#[test]
fn ao_partial_occlusion_darkens_monotonically() {
    let ao = AmbientOcculusionShader { samples: 4, color: gray() };
    let blocker = unit_sphere_at(0, 0, 3 * SCALE, Shader::AmbientOcculusion(ao));
    let scene = Scene { shapes: vec![blocker] };
    let renderer = Renderer::new(&scene);
    let hit = HitInfo::new(
        Shader::AmbientOcculusion(ao),
        SCALE,
        Vec3 { x: 0, y: 0, z: SCALE },
        Vec3 { x: 0, y: 0, z: 0 },
        Vec3 { x: 0, y: 0, z: 2 * SCALE },
        Vec3 { x: 0, y: 0, z: SCALE },
    );
    // two straight-up samples hit the blocker, two lateral ones escape
    let samples = vec![(32768, 32768), (32768, 32768), (65535, 32768), (0, 32768)];
    let c = ao.shade_with_samples(&hit, &renderer, &samples);
    assert!(c.x < gray().x);
    assert!(c.x > 0);
    assert_eq!(c.x, gray().x / 2);
}
