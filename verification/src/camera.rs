//! The camera: a view/projection matrix chain and per-pixel ray
//! generation.
//!
//! The chain is kept as integer matrices applied projectively, so the
//! stored screen-to-world core is the exact adjugate inverse of the
//! world-to-NDC matrix whenever an update succeeds; a degenerate
//! configuration is reported as a recoverable error and leaves the
//! previous transforms in place.

use vstd::prelude::*;
use crate::fixed::{tdiv, sdiv, sqrt_floor, div_wide, div_signed, isqrt, SCALE};
use crate::types::{Vec3, Pnt3, bounded, sub_spec, add_spec, neg_spec, dot_spec, norm_sq_spec,
    normalize_spec, cross_spec, wide_mul, lemma_dot_bound, lemma_tdiv_shrink, VMAX};
use crate::mat::{Mat4, Vec4, m4_bounded, m4_zero, m4_zero_exec, m4_scalar, m4_scalar_exec,
    m4_mul_s_spec, m4_mul_s, m4_adj_spec, m4_adj, m4_det_spec, m4_det, m4_mul_raw_spec,
    m4_mul_wide, m4_eq, m4_apply_spec, m4_apply, m4_check_bounded};
use crate::trig::{sin_q_spec, cos_q_spec, sin_q, cos_q};
use crate::ray::{Ray, ray_wf, RMAX};

verus! {

/// Why a camera update or a ray generation was refused.
#[derive(Clone, Copy, Debug, PartialEq, Eq, Structural)]
pub enum CameraError {
    /// A resolution side was zero or beyond the supported range.
    DegenerateResolution,
    /// The front or up direction collapses the view basis.
    DegenerateOrientation,
    /// The field of view, clip distances or aspect give no usable
    /// projection.
    DegenerateProjection,
    /// The projection chain cannot be inverted.
    SingularTransform,
    /// The requested pixel unprojects outside the representable world.
    UnrepresentableRay,
}

/// The viewport matrix: maps normalized device coordinates onto pixel
/// coordinates, scaling by half the resolution and mapping depth into
/// `[0, 1]`.
pub open spec fn viewport_spec(w: int, h: int) -> Mat4 {
    Mat4 {
        e00: (w * 32768) as i128,
        e01: 0,
        e02: 0,
        e03: (w * 32768) as i128,
        e10: 0,
        e11: (h * 32768) as i128,
        e12: 0,
        e13: (h * 32768) as i128,
        e20: 0,
        e21: 0,
        e22: 32768,
        e23: 32768,
        e30: 0,
        e31: 0,
        e32: 0,
        e33: 65536,
    }
}

/// The exact viewport unmapping: a matrix `N` with
/// `viewport * N == SCALE * w * h * I`, so the window-to-NDC step of the
/// screen-to-world chain is exact.
pub open spec fn unmap_spec(w: int, h: int) -> Mat4 {
    Mat4 {
        e00: (2 * h) as i128,
        e01: 0,
        e02: 0,
        e03: (-(w * h)) as i128,
        e10: 0,
        e11: (2 * w) as i128,
        e12: 0,
        e13: (-(w * h)) as i128,
        e20: 0,
        e21: 0,
        e22: (2 * (w * h)) as i128,
        e23: (-(w * h)) as i128,
        e30: 0,
        e31: 0,
        e32: 0,
        e33: (w * h) as i128,
    }
}

/// The viewport unmapping is exact: composing the viewport with its
/// unmapping yields a positive scalar multiple of the identity, the
/// projective identity.
pub proof fn lemma_viewport_unmap(w: int, h: int)
    requires
        1 <= w <= 4096,
        1 <= h <= 4096,
    ensures
        m4_mul_raw_spec(viewport_spec(w, h), unmap_spec(w, h)) == m4_scalar(65536 * (w * h)),
        65536 * (w * h) > 0,
{
    let v = viewport_spec(w, h);
    let n = unmap_spec(w, h);
    assert(0 <= w * h <= 0x1000000) by (nonlinear_arith)
        requires
            1 <= w <= 4096,
            1 <= h <= 4096,
    ;
    assert(0 <= 65536 * (w * h) <= 0x10000000000) by (nonlinear_arith)
        requires
            0 <= w * h <= 0x1000000,
    ;
    assert((w * 32768) * (2 * h) == 65536 * (w * h)) by (nonlinear_arith);
    assert((w * 32768) * (-(w * h)) + (w * 32768) * (w * h) == 0) by (nonlinear_arith);
    assert((h * 32768) * (2 * w) == 65536 * (w * h)) by (nonlinear_arith);
    assert((h * 32768) * (-(w * h)) + (h * 32768) * (w * h) == 0) by (nonlinear_arith);
    assert(32768 * (2 * (w * h)) == 65536 * (w * h)) by (nonlinear_arith);
    assert(32768 * (-(w * h)) + 32768 * (w * h) == 0) by (nonlinear_arith);
    assert(65536 * (w * h) > 0) by (nonlinear_arith)
        requires
            1 <= w,
            1 <= h,
    ;
    assert(m4_mul_raw_spec(v, n) =~= m4_scalar(65536 * (w * h)));
}

/// The symmetric frustum matrix, rows encoding `2n/(r-l)` and its
/// companions, with the perspective divide in the last row.
pub open spec fn frustum_spec(l: int, r: int, b: int, t: int, n: int, f: int) -> Mat4 {
    Mat4 {
        e00: tdiv(2 * n * SCALE, r - l) as i128,
        e01: 0,
        e02: tdiv((r + l) * SCALE, r - l) as i128,
        e03: 0,
        e10: 0,
        e11: tdiv(2 * n * SCALE, t - b) as i128,
        e12: tdiv((t + b) * SCALE, t - b) as i128,
        e13: 0,
        e20: 0,
        e21: 0,
        e22: (-tdiv((f + n) * SCALE, f - n)) as i128,
        e23: (-tdiv(2 * (n * f), f - n)) as i128,
        e30: 0,
        e31: 0,
        e32: -65536i128,
        e33: 0,
    }
}

/// The perspective matrix from a vertical field-of-view angle in
/// degrees, an aspect ratio, and clip distances; `None` when the
/// parameters give no usable frustum.
pub open spec fn perspective_spec(angle: int, aspect: int, near: int, far: int) -> Option<Mat4> {
    if !(0 < angle < 11796480) {
        Option::None
    } else {
        let arg = tdiv(angle * 205887, 23592960);
        let c = cos_q_spec(arg);
        if c <= 0 {
            Option::None
        } else {
            let tn = tdiv(sin_q_spec(arg) * SCALE, c);
            let wt = tdiv(tn * near, SCALE as int);
            let wr = tdiv(wt * aspect, SCALE as int);
            if wt <= 0 || wt > 0x20000000000 || wr <= 0 || wr > 0x20000000000 || !(0 < near
                < far) {
                Option::None
            } else {
                Option::Some(frustum_spec(-wr, wr, -wt, wt, near, far))
            }
        }
    }
}

/// The orthonormal-by-construction view basis from eye, look-at center
/// and up; `None` when a normalization degenerates.
pub open spec fn basis_spec(eye: Vec3, center: Vec3, up: Vec3) -> Option<(Vec3, Vec3, Vec3)> {
    let ez = sub_spec(eye, center);
    if norm_sq_spec(ez) == 0 {
        Option::None
    } else {
        let z = normalize_spec(ez);
        let x0 = cross_spec(up, z);
        if norm_sq_spec(x0) == 0 {
            Option::None
        } else {
            let x = normalize_spec(x0);
            let y0 = cross_spec(z, x);
            if norm_sq_spec(y0) == 0 {
                Option::None
            } else {
                Option::Some((x, normalize_spec(y0), z))
            }
        }
    }
}

/// The world-to-camera matrix from a view basis: basis rows, with the
/// translation row dotted against the negated eye.
pub open spec fn lookat_from_basis_spec(x: Vec3, y: Vec3, z: Vec3, eye: Vec3) -> Mat4 {
    Mat4 {
        e00: x.x as i128,
        e01: x.y as i128,
        e02: x.z as i128,
        e03: tdiv(dot_spec(x, neg_spec(eye)), SCALE as int) as i128,
        e10: y.x as i128,
        e11: y.y as i128,
        e12: y.z as i128,
        e13: tdiv(dot_spec(y, neg_spec(eye)), SCALE as int) as i128,
        e20: z.x as i128,
        e21: z.y as i128,
        e22: z.z as i128,
        e23: tdiv(dot_spec(z, neg_spec(eye)), SCALE as int) as i128,
        e30: 0,
        e31: 0,
        e32: 0,
        e33: 65536,
    }
}

/// The camera-to-world matrix from the same basis: basis columns, with
/// the eye as translation.
pub open spec fn lookat_inv_from_basis_spec(x: Vec3, y: Vec3, z: Vec3, eye: Vec3) -> Mat4 {
    Mat4 {
        e00: x.x as i128,
        e01: y.x as i128,
        e02: z.x as i128,
        e03: eye.x as i128,
        e10: x.y as i128,
        e11: y.y as i128,
        e12: z.y as i128,
        e13: eye.y as i128,
        e20: x.z as i128,
        e21: y.z as i128,
        e22: z.z as i128,
        e23: eye.z as i128,
        e30: 0,
        e31: 0,
        e32: 0,
        e33: 65536,
    }
}

/// Maintains the view/projection chain and generates world-space rays
/// for pixel coordinates.
pub struct Camera {
    /// Pixel resolution, width and height.
    pub resolution: (u32, u32),
    /// Width over height, at denominator `SCALE`.
    pub aspect: i64,
    /// Vertical field of view in degrees, at denominator `SCALE`.
    pub angle: i64,
    /// Near clip distance.
    pub near: i64,
    /// Far clip distance.
    pub far: i64,
    /// Eye position.
    pub position: Pnt3,
    /// View direction; re-orthogonalized during matrix construction.
    pub front: Vec3,
    /// Up direction; re-orthogonalized during matrix construction.
    pub up: Vec3,
    /// View matrix.
    pub world_to_camera: Mat4,
    /// Inverse view matrix.
    pub camera_to_world: Mat4,
    /// Projection matrix.
    pub perspective: Mat4,
    /// `perspective * world_to_camera`.
    pub world_to_ndc: Mat4,
    /// Viewport matrix.
    pub ndc_to_window: Mat4,
    /// `ndc_to_window * world_to_ndc`, kept for introspection.
    pub world_to_screen: Mat4,
    /// The adjugate of `world_to_ndc`: its exact projective inverse.
    pub screen_to_world: Mat4,
    /// The determinant of `world_to_ndc` at the last successful update.
    pub det_ndc: i128,
    /// Whether a successful update has produced the stored transforms.
    pub valid: bool,
}

/// A camera whose last-good transforms are usable: whenever `valid`
/// holds, the stored screen-to-world core is bounded and is an exact
/// projective inverse of the world-to-NDC matrix.
pub open spec fn camera_wf(c: Camera) -> bool {
    c.valid ==> {
        &&& m4_bounded(c.screen_to_world, 0x6000000000000000000000)
        &&& c.det_ndc != 0
        &&& m4_mul_raw_spec(c.world_to_ndc, c.screen_to_world) == m4_scalar(c.det_ndc as int)
    }
}

/// The round trip the camera maintains: a valid camera's stored
/// screen-to-world core times its world-to-NDC matrix is exactly the
/// determinant times the identity, the projective identity transform.
pub proof fn lemma_screen_world_inverse(c: Camera)
    requires
        camera_wf(c),
        c.valid,
    ensures
        m4_mul_raw_spec(c.world_to_ndc, c.screen_to_world) == m4_scalar(c.det_ndc as int),
        c.det_ndc != 0,
{
}

/// What a full matrix-chain update computes from the camera's
/// parameters: the new camera on success, and the reason on failure.
pub open spec fn update_spec(c: Camera) -> Result<Camera, CameraError> {
    let w = c.resolution.0 as int;
    let h = c.resolution.1 as int;
    if !(1 <= w <= 4096 && 1 <= h <= 4096) {
        Result::Err(CameraError::DegenerateResolution)
    } else if !(bounded(c.position, 0x80000000) && bounded(c.front, 0x20000) && bounded(c.up,
        0x20000)) {
        Result::Err(CameraError::DegenerateOrientation)
    } else if !(-0x20000000000 <= c.near <= 0x20000000000 && -0x20000000000 <= c.far
        <= 0x20000000000 && -0x10000000 <= c.aspect <= 0x10000000) {
        Result::Err(CameraError::DegenerateProjection)
    } else {
        match basis_spec(c.position, add_spec(c.position, c.front), c.up) {
            Option::None => Result::Err(CameraError::DegenerateOrientation),
            Option::Some(basis) => {
                let l = lookat_from_basis_spec(basis.0, basis.1, basis.2, c.position);
                let li = lookat_inv_from_basis_spec(basis.0, basis.1, basis.2, c.position);
                match perspective_spec(c.angle as int, c.aspect as int, c.near as int,
                    c.far as int) {
                    Option::None => Result::Err(CameraError::DegenerateProjection),
                    Option::Some(p) => {
                        if !(m4_bounded(p, 0x400000000) && m4_bounded(l, 0x400000000)) {
                            Result::Err(CameraError::DegenerateProjection)
                        } else {
                            let pl = m4_mul_s_spec(p, l);
                            if !m4_bounded(pl, 0x10000000) {
                                Result::Err(CameraError::SingularTransform)
                            } else {
                                let adj = m4_adj_spec(pl);
                                let det = m4_det_spec(pl);
                                if det == 0 || m4_mul_raw_spec(pl, adj) != m4_scalar(det) {
                                    Result::Err(CameraError::SingularTransform)
                                } else {
                                    let v = viewport_spec(w, h);
                                    Result::Ok(
                                        Camera {
                                            world_to_camera: l,
                                            camera_to_world: li,
                                            perspective: p,
                                            world_to_ndc: pl,
                                            ndc_to_window: v,
                                            world_to_screen: m4_mul_s_spec(v, pl),
                                            screen_to_world: adj,
                                            det_ndc: det as i128,
                                            valid: true,
                                            ..c
                                        },
                                    )
                                }
                            }
                        }
                    },
                }
            },
        }
    }
}

impl Camera {
    /// Builds a camera at the default pose looking along +y, and runs
    /// the first matrix-chain update; with a degenerate resolution the
    /// transforms stay at zero and the camera reports itself invalid.
    pub fn new(width: u32, height: u32) -> (c: Camera)
        ensures
            ({
                let base = camera_defaults(width, height);
                c == (match update_spec(base) {
                    Result::Ok(c2) => c2,
                    Result::Err(_) => base,
                })
            }),
            camera_wf(c),
    {
        let aspect: i64 = if height == 0 {
            0
        } else {
            proof {
                lemma_tdiv_shrink((width as int) * 65536, 0x10000000000000, height as int);
                crate::fixed::lemma_tdiv_bounds((width as int) * 65536, height as int);
            }
            div_wide((width as i128) * 65536, height as i128) as i64
        };
        let mut camera = Camera {
            resolution: (width, height),
            aspect,
            angle: 2949120,
            near: 655,
            far: 655360000,
            position: Vec3 { x: 0, y: -655360, z: 32768 },
            front: Vec3 { x: 0, y: 65536, z: 0 },
            up: Vec3 { x: 0, y: 0, z: -65536 },
            world_to_camera: m4_zero_exec(),
            camera_to_world: m4_zero_exec(),
            perspective: m4_zero_exec(),
            world_to_ndc: m4_zero_exec(),
            ndc_to_window: m4_zero_exec(),
            world_to_screen: m4_zero_exec(),
            screen_to_world: m4_zero_exec(),
            det_ndc: 0,
            valid: false,
        };
        proof {
            assert(camera == camera_defaults(width, height));
        }
        let _ = camera.update_camera();
        camera
    }

    /// Recomputes the whole matrix chain from the current parameters.
    /// On any degeneracy the previous transforms are kept and the
    /// reason is returned; on success all stored matrices are mutually
    /// consistent with the parameters and the screen-to-world core is
    /// the exact adjugate inverse of the new world-to-NDC matrix.
    pub fn update_camera(&mut self) -> (r: Result<(), CameraError>)
        requires
            camera_wf(*old(self)),
        ensures
            ({
                match update_spec(*old(self)) {
                    Result::Ok(c2) => r is Ok && *final(self) == c2,
                    Result::Err(e) => r == Result::<(), CameraError>::Err(e) && *final(self)
                        == *old(self),
                }
            }),
            camera_wf(*final(self)),
    {
        let (w, h) = self.resolution;
        if !(1 <= w && w <= 4096 && 1 <= h && h <= 4096) {
            return Err(CameraError::DegenerateResolution);
        }
        let p = self.position;
        let okp = p.x >= -0x80000000 && p.x <= 0x80000000 && p.y >= -0x80000000 && p.y
            <= 0x80000000 && p.z >= -0x80000000 && p.z <= 0x80000000;
        let f = self.front;
        let okf = f.x >= -0x20000 && f.x <= 0x20000 && f.y >= -0x20000 && f.y <= 0x20000 && f.z
            >= -0x20000 && f.z <= 0x20000;
        let u = self.up;
        let oku = u.x >= -0x20000 && u.x <= 0x20000 && u.y >= -0x20000 && u.y <= 0x20000 && u.z
            >= -0x20000 && u.z <= 0x20000;
        if !(okp && okf && oku) {
            return Err(CameraError::DegenerateOrientation);
        }
        if !(-0x20000000000 <= self.near && self.near <= 0x20000000000 && -0x20000000000
            <= self.far && self.far <= 0x20000000000 && -0x10000000 <= self.aspect && self.aspect
            <= 0x10000000) {
            return Err(CameraError::DegenerateProjection);
        }
        let center = self.position.add(&self.front);
        let basis = match camera_basis(&self.position, &center, &self.up) {
            Ok(b) => b,
            Err(e) => {
                return Err(e);
            },
        };
        let (bx, by, bz) = basis;
        let l = lookat_from_basis(&bx, &by, &bz, &self.position);
        let li = lookat_inv_from_basis(&bx, &by, &bz, &self.position);
        let persp = match Camera::create_perspective(self.angle, self.aspect, self.near,
            self.far) {
            Ok(m) => m,
            Err(e) => {
                return Err(e);
            },
        };
        if !(m4_check_bounded(&persp, 0x400000000) && m4_check_bounded(&l, 0x400000000)) {
            return Err(CameraError::DegenerateProjection);
        }
        let pl = m4_mul_s(&persp, &l);
        if !m4_check_bounded(&pl, 0x10000000) {
            return Err(CameraError::SingularTransform);
        }
        let adj = m4_adj(&pl);
        let det = m4_det(&pl);
        let prod = m4_mul_wide(&pl, &adj);
        let want = m4_scalar_exec(det);
        if det == 0 || !m4_eq(&prod, &want) {
            return Err(CameraError::SingularTransform);
        }
        let v = create_viewport(w, h);
        self.world_to_camera = l;
        self.camera_to_world = li;
        self.perspective = persp;
        self.world_to_ndc = pl;
        self.ndc_to_window = v;
        self.world_to_screen = m4_mul_s(&v, &pl);
        self.screen_to_world = adj;
        self.det_ndc = det;
        self.valid = true;
        Ok(())
    }

    /// Changes the resolution, recomputes the aspect ratio, and updates
    /// the matrix chain.
    pub fn set_size(&mut self, width: u32, height: u32) -> (r: Result<(), CameraError>)
        requires
            camera_wf(*old(self)),
        ensures
            ({
                let base = with_size(*old(self), width, height);
                match update_spec(base) {
                    Result::Ok(c2) => r is Ok && *final(self) == c2,
                    Result::Err(e) => r == Result::<(), CameraError>::Err(e) && *final(self)
                        == base,
                }
            }),
            camera_wf(*final(self)),
    {
        self.resolution = (width, height);
        self.aspect = if height == 0 {
            0
        } else {
            proof {
                lemma_tdiv_shrink((width as int) * 65536, 0x10000000000000, height as int);
                crate::fixed::lemma_tdiv_bounds((width as int) * 65536, height as int);
            }
            div_wide((width as i128) * 65536, height as i128) as i64
        };
        self.update_camera()
    }

    /// Moves the eye and updates the matrix chain.
    pub fn set_position(&mut self, pos: &Pnt3) -> (r: Result<(), CameraError>)
        requires
            camera_wf(*old(self)),
        ensures
            ({
                let base = Camera { position: *pos, ..*old(self) };
                match update_spec(base) {
                    Result::Ok(c2) => r is Ok && *final(self) == c2,
                    Result::Err(e) => r == Result::<(), CameraError>::Err(e) && *final(self)
                        == base,
                }
            }),
            camera_wf(*final(self)),
    {
        self.position = *pos;
        self.update_camera()
    }

    /// Changes the view direction and updates the matrix chain.
    pub fn set_front(&mut self, front: Vec3) -> (r: Result<(), CameraError>)
        requires
            camera_wf(*old(self)),
        ensures
            ({
                let base = Camera { front, ..*old(self) };
                match update_spec(base) {
                    Result::Ok(c2) => r is Ok && *final(self) == c2,
                    Result::Err(e) => r == Result::<(), CameraError>::Err(e) && *final(self)
                        == base,
                }
            }),
            camera_wf(*final(self)),
    {
        self.front = front;
        self.update_camera()
    }

    /// Changes the up direction and updates the matrix chain.
    pub fn set_up(&mut self, up: Vec3) -> (r: Result<(), CameraError>)
        requires
            camera_wf(*old(self)),
        ensures
            ({
                let base = Camera { up, ..*old(self) };
                match update_spec(base) {
                    Result::Ok(c2) => r is Ok && *final(self) == c2,
                    Result::Err(e) => r == Result::<(), CameraError>::Err(e) && *final(self)
                        == base,
                }
            }),
            camera_wf(*final(self)),
    {
        self.up = up;
        self.update_camera()
    }


    /// The standard perspective projection from a vertical
    /// field-of-view angle in degrees, the aspect ratio and the clip
    /// distances, exactly [`perspective_spec`]; degenerate parameters
    /// are refused.
    pub fn create_perspective(angle: i64, aspect: i64, n_dist: i64, f_dist: i64) -> (r: Result<
        Mat4,
        CameraError,
    >)
        requires
            -0x10000000 <= aspect <= 0x10000000,
            -0x20000000000 <= n_dist <= 0x20000000000,
            -0x20000000000 <= f_dist <= 0x20000000000,
        ensures
            match r {
                Ok(m) => perspective_spec(angle as int, aspect as int, n_dist as int,
                    f_dist as int) == Option::Some(m),
                Err(e) => perspective_spec(angle as int, aspect as int, n_dist as int,
                    f_dist as int) is None && e == CameraError::DegenerateProjection,
            },
    {
        if !(0 < angle && angle < 11796480) {
            return Err(CameraError::DegenerateProjection);
        }
        proof {
            assert(0 <= (angle as int) * 205887 <= 11796480 * 205887) by (nonlinear_arith)
                requires
                    0 < angle < 11796480i64,
            ;
            lemma_tdiv_shrink((angle as int) * 205887, 2428709436702720, 23592960);
            crate::fixed::lemma_tdiv_bounds((angle as int) * 205887, 23592960);
        }
        let arg: i64 = div_wide(wide_mul(angle, 205887), 23592960) as i64;
        let c = cos_q(arg);
        if c <= 0 {
            return Err(CameraError::DegenerateProjection);
        }
        proof {
            assert(0 <= sin_q_spec(arg as int) * 65536 <= 65536 * 65536) by (nonlinear_arith)
                requires
                    0 <= sin_q_spec(arg as int) <= 65536,
            ;
            lemma_tdiv_shrink(sin_q_spec(arg as int) * 65536, (65536 * 65536) as int, c as int);
            crate::fixed::lemma_tdiv_bounds(sin_q_spec(arg as int) * 65536, c as int);
        }
        let s = sin_q(arg);
        let tn: i64 = div_wide(wide_mul(s, SCALE), c as i128) as i64;
        proof {
            assert(-0x100000000 * 0x20000000000 <= (tn as int) * (n_dist as int) <= 0x100000000
                * 0x20000000000) by (nonlinear_arith)
                requires
                    -0x100000000 <= tn <= 0x100000000i64,
                    -0x20000000000 <= n_dist <= 0x20000000000i64,
            ;
            lemma_tdiv_shrink((tn as int) * (n_dist as int), (0x100000000 * 0x20000000000) as int,
                SCALE as int);
        }
        let wt: i128 = div_wide(wide_mul(tn, n_dist), SCALE as i128);
        proof {
            assert(-0x2000000000000000 * 0x10000000 <= (wt as int) * (aspect as int)
                <= 0x2000000000000000 * 0x10000000) by (nonlinear_arith)
                requires
                    -0x2000000000000000 <= wt <= 0x2000000000000000,
                    -0x10000000 <= aspect <= 0x10000000i64,
            ;
            lemma_tdiv_shrink((wt as int) * (aspect as int), (0x2000000000000000 * 0x10000000) as int,
                SCALE as int);
        }
        let wr: i128 = div_wide(wt * (aspect as i128), SCALE as i128);
        if wt <= 0 || wt > 0x20000000000 || wr <= 0 || wr > 0x20000000000 || !(0 < n_dist
            && n_dist < f_dist) {
            return Err(CameraError::DegenerateProjection);
        }
        let wti = wt as i64;
        let wri = wr as i64;
        Ok(create_frustum(-wri, wri, -wti, wti, n_dist, f_dist))
    }
}

/// The window-space homogeneous point of pixel `(x, y)` at depth `z01`
/// (`0` near, `1` far), pre-multiplied by the exact viewport unmapping:
/// the vector the screen-to-world core is applied to.
pub open spec fn unmap_pixel_spec(w: int, h: int, x: int, y: int, z01: int) -> Vec4 {
    Vec4 {
        x: ((2 * x - w) * h) as i128,
        y: ((2 * y - h) * w) as i128,
        z: ((2 * z01 - 1) * (w * h)) as i128,
        w: (w * h) as i128,
    }
}

/// One world coordinate after the perspective divide.
pub open spec fn pdiv_spec(q: int, qw: int) -> int {
    sdiv(q * SCALE, qw)
}

/// The ray [`Camera::generate_ray`] produces, or why none can be: the
/// pixel's unprojections at depth zero and one, perspective-divided,
/// give the ray direction from the camera position and the window
/// `[tmin, tmax]` as the two points' distances.
/// The far bound of a pixel's ray: the distance of the far-depth
/// unprojection, or unbounded when that unprojection degenerates (a far
/// plane beyond fixed-point precision sits at infinity).
pub open spec fn far_bound_spec(c: Camera, q1: crate::mat::Vec4) -> int {
    if q1.w == 0 || !(-0x100000000000000000000000000 <= q1.x <= 0x100000000000000000000000000
        && -0x100000000000000000000000000 <= q1.y <= 0x100000000000000000000000000
        && -0x100000000000000000000000000 <= q1.z <= 0x100000000000000000000000000) {
        crate::ray::T_INF as int
    } else {
        let p1x = pdiv_spec(q1.x as int, q1.w as int);
        let p1y = pdiv_spec(q1.y as int, q1.w as int);
        let p1z = pdiv_spec(q1.z as int, q1.w as int);
        if !(-(RMAX as int) <= p1x <= RMAX as int && -(RMAX as int) <= p1y <= RMAX as int && -(
        RMAX as int) <= p1z <= RMAX as int) {
            crate::ray::T_INF as int
        } else {
            sqrt_floor(
                norm_sq_spec(
                    sub_spec((Vec3 { x: p1x as i64, y: p1y as i64, z: p1z as i64 }), c.position),
                ),
            )
        }
    }
}

pub open spec fn generate_ray_spec(c: Camera, x: int, y: int) -> Result<Ray, CameraError> {
    let w = c.resolution.0 as int;
    let h = c.resolution.1 as int;
    let q0 = m4_apply_spec(c.screen_to_world, unmap_pixel_spec(w, h, x, y, 0));
    let q1 = m4_apply_spec(c.screen_to_world, unmap_pixel_spec(w, h, x, y, 1));
    if q0.w == 0 {
        Result::Err(CameraError::UnrepresentableRay)
    } else if !(-0x100000000000000000000000000 <= q0.x <= 0x100000000000000000000000000
        && -0x100000000000000000000000000 <= q0.y <= 0x100000000000000000000000000
        && -0x100000000000000000000000000 <= q0.z <= 0x100000000000000000000000000) {
        Result::Err(CameraError::UnrepresentableRay)
    } else {
        let p0x = pdiv_spec(q0.x as int, q0.w as int);
        let p0y = pdiv_spec(q0.y as int, q0.w as int);
        let p0z = pdiv_spec(q0.z as int, q0.w as int);
        if !(-(RMAX as int) <= p0x <= RMAX as int && -(RMAX as int) <= p0y <= RMAX as int && -(
        RMAX as int) <= p0z <= RMAX as int) {
            Result::Err(CameraError::UnrepresentableRay)
        } else {
            let p0 = Vec3 { x: p0x as i64, y: p0y as i64, z: p0z as i64 };
            let dir = sub_spec(p0, c.position);
            if !(bounded(dir, VMAX as int) && norm_sq_spec(dir) > 0) {
                Result::Err(CameraError::UnrepresentableRay)
            } else {
                let tmin = sqrt_floor(norm_sq_spec(sub_spec(p0, c.position)));
                Result::Ok(
                    (Ray {
                        tmin: tmin as i64,
                        tmax: far_bound_spec(c, q1) as i64,
                        origin: c.position,
                        dir: normalize_spec(dir),
                    }),
                )
            }
        }
    }
}

impl Camera {
    /// Maps a pixel coordinate to the world-space ray through that
    /// pixel, exactly [`generate_ray_spec`]: the origin is the camera
    /// position, the direction passes through the pixel's unprojection
    /// at the near depth, and `[tmin, tmax]` are the distances of the
    /// near- and far-depth unprojections.  A pixel whose unprojection
    /// degenerates or leaves the world envelope is refused.
    pub fn generate_ray(&self, x: u32, y: u32) -> (r: Result<Ray, CameraError>)
        requires
            camera_wf(*self),
            self.valid,
            bounded(self.position, 0x80000000),
            1 <= self.resolution.0 <= 4096,
            1 <= self.resolution.1 <= 4096,
            x < self.resolution.0,
            y < self.resolution.1,
        ensures
            r == generate_ray_spec(*self, x as int, y as int),
            r matches Ok(ray) ==> ray_wf(ray) && ray.origin == self.position && 0 <= ray.tmin,
    {
        let (w32, h32) = self.resolution;
        let w: i64 = w32 as i64;
        let h: i64 = h32 as i64;
        proof {
            assert(-0x2000000 <= (2 * (x as int) - w as int) * (h as int) <= 0x2000000)
                by (nonlinear_arith)
                requires
                    0 <= x < w as int,
                    1 <= w as int <= 4096,
                    1 <= h as int <= 4096,
            ;
            assert(-0x2000000 <= (2 * (y as int) - h as int) * (w as int) <= 0x2000000)
                by (nonlinear_arith)
                requires
                    0 <= y < h as int,
                    1 <= w as int <= 4096,
                    1 <= h as int <= 4096,
            ;
            assert(0 < (w as int) * (h as int) <= 0x1000000) by (nonlinear_arith)
                requires
                    1 <= w as int <= 4096,
                    1 <= h as int <= 4096,
            ;
        }
        let wh: i64 = w * h;
        let nx: i128 = ((2 * (x as i64) - w) * h) as i128;
        let ny: i128 = ((2 * (y as i64) - h) * w) as i128;
        let n0 = Vec4 { x: nx, y: ny, z: -(wh as i128), w: wh as i128 };
        let n1 = Vec4 { x: nx, y: ny, z: wh as i128, w: wh as i128 };
        proof {
            let ws = w as int;
            let hs = h as int;
            let u0 = unmap_pixel_spec(ws, hs, x as int, y as int, 0);
            let u1 = unmap_pixel_spec(ws, hs, x as int, y as int, 1);
            assert((2 * 0 - 1) * (ws * hs) == -(ws * hs)) by (nonlinear_arith);
            assert((2 * 1 - 1) * (ws * hs) == ws * hs) by (nonlinear_arith);
            assert(n0.x == u0.x);
            assert(n0.y == u0.y);
            assert(n0.z == u0.z);
            assert(n0.w == u0.w);
            assert(n1.z == u1.z);
            assert(n0 =~= u0);
            assert(n1 =~= u1);
        }
        let q0 = m4_apply(&self.screen_to_world, &n0);
        let q1 = m4_apply(&self.screen_to_world, &n1);
        if q0.w == 0 {
            return Err(CameraError::UnrepresentableRay);
        }
        if !(-0x100000000000000000000000000 <= q0.x && q0.x <= 0x100000000000000000000000000
            && -0x100000000000000000000000000 <= q0.y && q0.y <= 0x100000000000000000000000000
            && -0x100000000000000000000000000 <= q0.z && q0.z
            <= 0x100000000000000000000000000) {
            return Err(CameraError::UnrepresentableRay);
        }
        let p0x = div_signed(q0.x * 65536, q0.w);
        let p0y = div_signed(q0.y * 65536, q0.w);
        let p0z = div_signed(q0.z * 65536, q0.w);
        if !(-RMAX as i128 <= p0x && p0x <= RMAX as i128 && -RMAX as i128 <= p0y && p0y
            <= RMAX as i128 && -RMAX as i128 <= p0z && p0z <= RMAX as i128) {
            return Err(CameraError::UnrepresentableRay);
        }
        let p0 = Vec3 { x: p0x as i64, y: p0y as i64, z: p0z as i64 };
        let dir = p0.sub(&self.position);
        let okd = dir.x >= -VMAX && dir.x <= VMAX && dir.y >= -VMAX && dir.y <= VMAX && dir.z
            >= -VMAX && dir.z <= VMAX;
        if !okd {
            return Err(CameraError::UnrepresentableRay);
        }
        if dir.norm_sq() <= 0 {
            proof {
                crate::types::lemma_norm_sq_nonneg(sub_spec(p0, self.position));
            }
            return Err(CameraError::UnrepresentableRay);
        }
        let tmin = vec_dist(&p0, &self.position);
        let tmax: i64 = if q1.w == 0 || !(-0x100000000000000000000000000 <= q1.x && q1.x
            <= 0x100000000000000000000000000 && -0x100000000000000000000000000 <= q1.y && q1.y
            <= 0x100000000000000000000000000 && -0x100000000000000000000000000 <= q1.z && q1.z
            <= 0x100000000000000000000000000) {
            crate::ray::T_INF
        } else {
            let p1x = div_signed(q1.x * 65536, q1.w);
            let p1y = div_signed(q1.y * 65536, q1.w);
            let p1z = div_signed(q1.z * 65536, q1.w);
            if !(-RMAX as i128 <= p1x && p1x <= RMAX as i128 && -RMAX as i128 <= p1y && p1y
                <= RMAX as i128 && -RMAX as i128 <= p1z && p1z <= RMAX as i128) {
                crate::ray::T_INF
            } else {
                let p1 = Vec3 { x: p1x as i64, y: p1y as i64, z: p1z as i64 };
                vec_dist(&p1, &self.position)
            }
        };
        Ok(Ray::new(&self.position, dir, tmin, tmax))
    }
}

/// The distance between two points within the envelope: the floor
/// square root of the squared norm of their difference.
fn vec_dist(a: &Vec3, b: &Vec3) -> (r: i64)
    requires
        bounded(*a, RMAX as int),
        bounded(*b, 0x80000000),
    ensures
        r == sqrt_floor(norm_sq_spec(sub_spec(*a, *b))),
        0 <= r,
{
    let d = a.sub(b);
    let n2 = d.norm_sq();
    proof {
        lemma_dot_bound(sub_spec(*a, *b), sub_spec(*a, *b), 0x200080000000, 0x200080000000);
        assert((1u128 << 126) == 0x40000000000000000000000000000000u128) by (bit_vector);
        crate::fixed::lemma_sqrt_floor(n2 as int);
        let l = sqrt_floor(n2 as int);
        assert(l < 0x800000000000) by (nonlinear_arith)
            requires
                l * l <= n2 as int,
                n2 as int <= 3 * (0x200080000000 * 0x200080000000),
                l >= 0,
        ;
    }
    isqrt(n2 as u128) as i64
}

/// The defaults [`Camera::new`] starts from.
pub open spec fn camera_defaults(width: u32, height: u32) -> Camera {
    Camera {
        resolution: (width, height),
        aspect: if height == 0 {
            0
        } else {
            tdiv((width as int) * 65536, height as int) as i64
        },
        angle: 2949120,
        near: 655,
        far: 655360000,
        position: (Vec3 { x: 0, y: -655360i64, z: 32768 }),
        front: (Vec3 { x: 0, y: 65536, z: 0 }),
        up: (Vec3 { x: 0, y: 0, z: -65536i64 }),
        world_to_camera: m4_zero(),
        camera_to_world: m4_zero(),
        perspective: m4_zero(),
        world_to_ndc: m4_zero(),
        ndc_to_window: m4_zero(),
        world_to_screen: m4_zero(),
        screen_to_world: m4_zero(),
        det_ndc: 0,
        valid: false,
    }
}

/// A camera with its resolution and aspect replaced.
pub open spec fn with_size(c: Camera, width: u32, height: u32) -> Camera {
    Camera {
        resolution: (width, height),
        aspect: if height == 0 {
            0
        } else {
            tdiv((width as int) * 65536, height as int) as i64
        },
        ..c
    }
}

/// Builds the view basis at runtime, reporting exactly [`basis_spec`].
fn camera_basis(eye: &Vec3, center: &Vec3, up: &Vec3) -> (r: Result<(Vec3, Vec3, Vec3),
    CameraError>)
    requires
        bounded(*eye, 0x80000000),
        bounded(*center, 0x100000000),
        bounded(*up, 0x20000),
    ensures
        match r {
            Ok(b) => basis_spec(*eye, *center, *up) == Option::Some(b) && bounded(b.0,
                SCALE as int) && bounded(b.1, SCALE as int) && bounded(b.2, SCALE as int),
            Err(e) => basis_spec(*eye, *center, *up) is None && e
                == CameraError::DegenerateOrientation,
        },
{
    let ez = eye.sub(center);
    if ez.norm_sq() == 0 {
        return Err(CameraError::DegenerateOrientation);
    }
    let z = ez.normalize();
    let x0 = up.cross(&z);
    if x0.norm_sq() == 0 {
        return Err(CameraError::DegenerateOrientation);
    }
    let x = x0.normalize();
    let y0 = z.cross(&x);
    if y0.norm_sq() == 0 {
        return Err(CameraError::DegenerateOrientation);
    }
    let y = y0.normalize();
    Ok((x, y, z))
}

/// Builds the world-to-camera matrix from a basis.
fn lookat_from_basis(x: &Vec3, y: &Vec3, z: &Vec3, eye: &Vec3) -> (r: Mat4)
    requires
        bounded(*x, SCALE as int),
        bounded(*y, SCALE as int),
        bounded(*z, SCALE as int),
        bounded(*eye, 0x80000000),
    ensures
        r == lookat_from_basis_spec(*x, *y, *z, *eye),
{
    let tr = eye.neg();
    proof {
        lemma_dot_bound(*x, neg_spec(*eye), SCALE as int, 0x80000000);
        lemma_dot_bound(*y, neg_spec(*eye), SCALE as int, 0x80000000);
        lemma_dot_bound(*z, neg_spec(*eye), SCALE as int, 0x80000000);
        lemma_tdiv_shrink(dot_spec(*x, neg_spec(*eye)), 0x1800000000000, SCALE as int);
        lemma_tdiv_shrink(dot_spec(*y, neg_spec(*eye)), 0x1800000000000, SCALE as int);
        lemma_tdiv_shrink(dot_spec(*z, neg_spec(*eye)), 0x1800000000000, SCALE as int);
    }
    let tx = div_wide(x.dot(&tr), SCALE as i128);
    let ty = div_wide(y.dot(&tr), SCALE as i128);
    let tz = div_wide(z.dot(&tr), SCALE as i128);
    Mat4 {
        e00: x.x as i128,
        e01: x.y as i128,
        e02: x.z as i128,
        e03: tx,
        e10: y.x as i128,
        e11: y.y as i128,
        e12: y.z as i128,
        e13: ty,
        e20: z.x as i128,
        e21: z.y as i128,
        e22: z.z as i128,
        e23: tz,
        e30: 0,
        e31: 0,
        e32: 0,
        e33: 65536,
    }
}

/// Builds the camera-to-world matrix from the same basis.
fn lookat_inv_from_basis(x: &Vec3, y: &Vec3, z: &Vec3, eye: &Vec3) -> (r: Mat4)
    ensures
        r == lookat_inv_from_basis_spec(*x, *y, *z, *eye),
{
    Mat4 {
        e00: x.x as i128,
        e01: y.x as i128,
        e02: z.x as i128,
        e03: eye.x as i128,
        e10: x.y as i128,
        e11: y.y as i128,
        e12: z.y as i128,
        e13: eye.y as i128,
        e20: x.z as i128,
        e21: y.z as i128,
        e22: z.z as i128,
        e23: eye.z as i128,
        e30: 0,
        e31: 0,
        e32: 0,
        e33: 65536,
    }
}

/// Builds the viewport matrix.
fn create_viewport(width: u32, height: u32) -> (r: Mat4)
    requires
        1 <= width <= 4096,
        1 <= height <= 4096,
    ensures
        r == viewport_spec(width as int, height as int),
        m4_bounded(r, 0x8000000),
{
    let ws: i128 = (width as i128) * 32768;
    let hs: i128 = (height as i128) * 32768;
    Mat4 {
        e00: ws,
        e01: 0,
        e02: 0,
        e03: ws,
        e10: 0,
        e11: hs,
        e12: 0,
        e13: hs,
        e20: 0,
        e21: 0,
        e22: 32768,
        e23: 32768,
        e30: 0,
        e31: 0,
        e32: 0,
        e33: 65536,
    }
}

/// Builds the general frustum matrix.
fn create_frustum(l: i64, r: i64, b: i64, t: i64, n: i64, f: i64) -> (m: Mat4)
    requires
        l < r,
        b < t,
        n < f,
        -0x20000000000 <= l && r <= 0x20000000000,
        -0x20000000000 <= b && t <= 0x20000000000,
        -0x20000000000 <= n && f <= 0x20000000000,
        -0x20000000000 <= n,
        -0x20000000000 <= b,
        -0x20000000000 <= l,
    ensures
        m == frustum_spec(l as int, r as int, b as int, t as int, n as int, f as int),
{
    let rl: i128 = (r as i128) - (l as i128);
    let tb: i128 = (t as i128) - (b as i128);
    let fn_: i128 = (f as i128) - (n as i128);
    let n2s: i128 = 2 * (n as i128) * 65536;
    let e00 = div_wide(n2s, rl);
    let e02 = div_wide(((r as i128) + (l as i128)) * 65536, rl);
    let e11 = div_wide(n2s, tb);
    let e12 = div_wide(((t as i128) + (b as i128)) * 65536, tb);
    proof {
        assert(-0x400000000000000000000 <= (n as int) * (f as int) <= 0x400000000000000000000)
            by (nonlinear_arith)
            requires
                -0x20000000000 <= n <= 0x20000000000i64,
                -0x20000000000 <= f <= 0x20000000000i64,
        ;
        crate::fixed::lemma_tdiv_bounds(((f as int) + (n as int)) * 65536, (f - n) as int);
        crate::fixed::lemma_tdiv_bounds(2 * ((n as int) * (f as int)), (f - n) as int);
    }
    let e22 = -div_wide(((f as i128) + (n as i128)) * 65536, fn_);
    let e23 = -div_wide(2 * ((n as i128) * (f as i128)), fn_);
    Mat4 {
        e00,
        e01: 0,
        e02,
        e03: 0,
        e10: 0,
        e11,
        e12,
        e13: 0,
        e20: 0,
        e21: 0,
        e22,
        e23,
        e30: 0,
        e31: 0,
        e32: -65536i128,
        e33: 0,
    }
}

} // verus!
