use raytracer::fixed::{div_fx, isqrt, clamp_fx, SCALE};
use raytracer::trig::cos_sin_turn;
use raytracer::types::Vec3;
use raytracer::mat::Mat3;
use raytracer::warp::{get_pdf, warp_point, compute_concentric_map_rho_theta, WarpFunction};
use raytracer::shader::rotate_to;

#[test]
fn truncating_division_rounds_toward_zero() {
    assert_eq!(div_fx(7, 2), 3);
    assert_eq!(div_fx(-7, 2), -3);
    assert_eq!(div_fx(0, 5), 0);
}

#[test]
fn integer_square_root_is_exact_floor() {
    assert_eq!(isqrt(0), 0);
    assert_eq!(isqrt(1), 1);
    assert_eq!(isqrt(15), 3);
    assert_eq!(isqrt(16), 4);
    assert_eq!(isqrt(4294967296), 65536);
    assert_eq!(isqrt(4294967295), 65535);
}

#[test]
fn clamp_limits_both_sides() {
    assert_eq!(clamp_fx(10, 0, 5), 5);
    assert_eq!(clamp_fx(-10, 0, 5), 0);
    assert_eq!(clamp_fx(3, 0, 5), 3);
}

#[test]
fn full_and_quarter_turns() {
    assert_eq!(cos_sin_turn(0), (SCALE, 0));
    assert_eq!(cos_sin_turn(16384), (0, SCALE));
    assert_eq!(cos_sin_turn(32768), (-SCALE, 0));
    assert_eq!(cos_sin_turn(49152), (0, -SCALE));
}

#[test]
fn pdf_constants_match_distributions() {
    assert_eq!(get_pdf(0, 0, WarpFunction::UniformHemisphere), 10430);
    assert_eq!(get_pdf(0, 0, WarpFunction::UniformSphere), 5215);
    assert_eq!(get_pdf(0, 0, WarpFunction::UniformDisk), 20860);
    assert_eq!(get_pdf(0, 0, WarpFunction::ConcentricDisk), 20860);
    assert_eq!(get_pdf(0, 0, WarpFunction::UniformTriangle), 2 * SCALE);
    assert_eq!(get_pdf(0, 0, WarpFunction::Uniform_Square), SCALE);
}

#[test]
fn cosine_hemisphere_pdf_at_center_is_near_zero() {
    // the center sample maps to radius zero, where cos * sin vanishes
    let p = get_pdf(32768, 32768, WarpFunction::CosineHemisphere);
    assert_eq!(p, 0);
}

#[test]
fn uniform_sphere_poles() {
    // s = 0 gives the +z pole exactly
    let v = warp_point(0, 0, WarpFunction::UniformSphere);
    assert_eq!(v, Vec3 { x: 0, y: 0, z: SCALE });
}

#[test]
fn concentric_disk_center_sample() {
    let v = warp_point(32768, 32768, WarpFunction::ConcentricDisk);
    assert_eq!(v, Vec3 { x: 0, y: 0, z: 0 });
}

#[test]
fn cosine_hemisphere_center_sample_points_up() {
    let v = warp_point(32768, 32768, WarpFunction::CosineHemisphere);
    assert_eq!(v, Vec3 { x: 0, y: 0, z: SCALE });
}

#[test]
fn square_warp_recenters_samples() {
    let v = warp_point(0, 65535, WarpFunction::Uniform_Square);
    assert_eq!(v, Vec3 { x: -SCALE, y: 2 * 65535 - SCALE, z: 0 });
}

#[test]
fn triangle_warp_barycentric_corner() {
    // s = 0 puts the sample at the first corner
    let v = warp_point(0, 32768, WarpFunction::UniformTriangle);
    assert_eq!(v, Vec3 { x: SCALE, y: 0, z: 0 });
}

#[test]
fn concentric_map_positive_x_axis() {
    let mut rho: i64 = 0;
    let mut theta: i64 = 0;
    // sx = 1/2, sy = 0: first region with sy <= 0, so the angle wraps to
    // eight octants
    compute_concentric_map_rho_theta(49152, 32768, &mut rho, &mut theta);
    assert_eq!(rho, 32768);
    assert_eq!(theta, 8 * 51471);
}

#[test]
fn concentric_map_center_is_origin() {
    let mut rho: i64 = 7;
    let mut theta: i64 = 7;
    compute_concentric_map_rho_theta(32768, 32768, &mut rho, &mut theta);
    assert_eq!(rho, 0);
    assert_eq!(theta, 0);
}

#[test]
fn concentric_map_second_region() {
    let mut rho: i64 = 0;
    let mut theta: i64 = 0;
    // sx = 0, sy = 1/2: second region, two octants
    compute_concentric_map_rho_theta(32768, 49152, &mut rho, &mut theta);
    assert_eq!(rho, 32768);
    assert_eq!(theta, 2 * 51471);
}

#[test]
fn aligning_a_direction_with_itself_is_identity() {
    let z = Vec3 { x: 0, y: 0, z: SCALE };
    let r = rotate_to(&z, &z);
    assert_eq!(
        r,
        Mat3 {
            m00: SCALE,
            m01: 0,
            m02: 0,
            m10: 0,
            m11: SCALE,
            m12: 0,
            m20: 0,
            m21: 0,
            m22: SCALE
        }
    );
    assert_eq!(r.apply(&z), z);
}

#[test]
fn aligning_with_the_negation_flips() {
    let z = Vec3 { x: 0, y: 0, z: SCALE };
    let zneg = Vec3 { x: 0, y: 0, z: -SCALE };
    let r = rotate_to(&z, &zneg);
    assert_eq!(r.apply(&z), zneg);
}

#[test]
fn aligning_orthogonal_axes_rotates_exactly() {
    let z = Vec3 { x: 0, y: 0, z: SCALE };
    let x = Vec3 { x: SCALE, y: 0, z: 0 };
    let r = rotate_to(&z, &x);
    let image = r.apply(&z);
    // the rotation takes +z close to +x; truncation may lose single bits
    assert!((image.x - SCALE).abs() <= 2);
    assert!(image.y.abs() <= 2);
    assert!(image.z.abs() <= 2);
}
