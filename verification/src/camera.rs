//! The camera: a pose and a lens, and the matrices that they give.
use vstd::prelude::*;
use crate::fixed::{div_floor, divide, fits, fixed_div, fixed_mul};
use crate::matrix::{dot4, Mat4};
use crate::transform::{lemma_identity_is_unit, Transform};
use crate::utils::lemma_div_by_negative;
use crate::vector::{Vec3, Vec4};

verus! {

/// A camera. The lens is given by the cotangent of half the vertical field of
/// view, the ratio of width to height, and the distances of the near and the
/// far plane.
#[derive(Debug, Copy, Clone, PartialEq, Eq, Structural)]
pub struct Camera {
    pub frustum_near: i32,
    pub frustum_far: i32,
    pub focal: i32,
    pub aspect_ratio: i32,
    pub transform: Transform,
    pub speed: i32,
}

/// The negative of a fixed-point scalar; nothing where it does not fit.
pub open spec fn negated(x: i32) -> Option<i32> {
    if x == i32::MIN {
        None
    } else {
        Some((-x) as i32)
    }
}

fn negate(x: i32) -> (r: Option<i32>)
    ensures
        r == negated(x),
{
    if x == i32::MIN {
        None
    } else {
        Some(-x)
    }
}

/// The vector that points the other way.
pub open spec fn reversed(v: Vec3) -> Vec3 {
    Vec3 { x: (-v.x) as i32, y: (-v.y) as i32, z: (-v.z) as i32 }
}

/// The matrix that takes the world to the space of a viewer at `eye` who looks
/// at `center`, with `up` upwards: right-handed, looking down the negative
/// `z` axis. Its rows are the viewer's right, its up and the reverse of its
/// forward direction, and its last column is the negative of what each row
/// makes of `eye`, so that the matrix takes `eye` to the origin. Nothing where
/// the viewer looks nowhere or along `up`, or where an entry does not fit.
pub open spec fn look_at_spec(eye: Vec3, center: Vec3, up: Vec3) -> Option<Mat4> {
    if !center.sub_fits(eye) {
        None
    } else {
        match center.sub_spec(eye).normalize_spec() {
            None => None,
            Some(f) => match f.cross_spec(up) {
                None => None,
                Some(side) => match side.normalize_spec() {
                    None => None,
                    Some(s) => match s.cross_spec(f) {
                        None => None,
                        Some(u) => match (
                            eye.dot_spec(s),
                            eye.dot_spec(u),
                            eye.dot_spec(reversed(f)),
                        ) {
                            (Some(es), Some(eu), Some(eb)) => match (
                                negated(es),
                                negated(eu),
                                negated(eb),
                            ) {
                                (Some(x), Some(y), Some(z)) => Some(
                                    (Mat4 {
                                        x_axis: Vec4 { x: s.x, y: u.x, z: reversed(f).x, w: 0 },
                                        y_axis: Vec4 { x: s.y, y: u.y, z: reversed(f).y, w: 0 },
                                        z_axis: Vec4 { x: s.z, y: u.z, z: reversed(f).z, w: 0 },
                                        w_axis: Vec4 { x, y, z, w: 65536 },
                                    }),
                                ),
                                _ => None,
                            },
                            _ => None,
                        },
                    },
                },
            },
        }
    }
}

/// Computes [`look_at_spec`].
pub fn look_at(eye: Vec3, center: Vec3, up: Vec3) -> (r: Option<Mat4>)
    ensures
        r == look_at_spec(eye, center, up),
{
    let dx = center.x as i64 - eye.x as i64;
    let dy = center.y as i64 - eye.y as i64;
    let dz = center.z as i64 - eye.z as i64;
    if dx < -0x8000_0000 || dx > 0x7FFF_FFFF || dy < -0x8000_0000 || dy > 0x7FFF_FFFF || dz
        < -0x8000_0000 || dz > 0x7FFF_FFFF {
        return None;
    }
    let f = match center.sub(eye).normalize() {
        Some(f) => f,
        None => { return None; },
    };
    let side = match f.cross(up) {
        Some(side) => side,
        None => { return None; },
    };
    let s = match side.normalize() {
        Some(s) => s,
        None => { return None; },
    };
    let u = match s.cross(f) {
        Some(u) => u,
        None => { return None; },
    };
    let es = match eye.dot(s) {
        Some(d) => d,
        None => { return None; },
    };
    let eu = match eye.dot(u) {
        Some(d) => d,
        None => { return None; },
    };
    let back = Vec3 { x: -f.x, y: -f.y, z: -f.z };
    let eb = match eye.dot(back) {
        Some(d) => d,
        None => { return None; },
    };
    let x = match negate(es) {
        Some(x) => x,
        None => { return None; },
    };
    let y = match negate(eu) {
        Some(y) => y,
        None => { return None; },
    };
    let z = match negate(eb) {
        Some(z) => z,
        None => { return None; },
    };
    Some(
        Mat4 {
            x_axis: Vec4 { x: s.x, y: u.x, z: back.x, w: 0 },
            y_axis: Vec4 { x: s.y, y: u.y, z: back.y, w: 0 },
            z_axis: Vec4 { x: s.z, y: u.z, z: back.z, w: 0 },
            w_axis: Vec4 { x, y, z, w: 65536 },
        },
    )
}

/// A row of three entries and the negative of what the row makes of a point
/// take the point to zero.
proof fn lemma_row_takes_point_to_zero(a0: int, a1: int, a2: int, p0: int, p1: int, p2: int)
    ensures
        ({
            let d = dot4(p0, a0, p1, a1, p2, a2, 0, 0);
            dot4(a0, p0, a1, p1, a2, p2, -d, 65536) == 0
        }),
{
    let n = p0 * a0 + p1 * a1 + p2 * a2;
    assert(0int * 0int == 0) by (nonlinear_arith);
    assert(a0 * p0 == p0 * a0 && a1 * p1 == p1 * a1 && a2 * p2 == p2 * a2) by (nonlinear_arith);
    let d = n / 65536;
    assert((-d) * 65536 == -(d * 65536)) by (nonlinear_arith);
    assert((n - d * 65536) / 65536 == 0);
}

/// The view matrix takes the eye to the origin.
pub proof fn lemma_view_takes_eye_to_origin(eye: Vec3, center: Vec3, up: Vec3)
    ensures
        look_at_spec(eye, center, up) matches Some(m) ==> m.mul_vec4_spec(
            Vec4 { x: eye.x, y: eye.y, z: eye.z, w: 65536 },
        ) == Some((Vec4 { x: 0, y: 0, z: 0, w: 65536 })),
{
    if let Some(m) = look_at_spec(eye, center, up) {
        let f = center.sub_spec(eye).normalize_spec()->0;
        let s = f.cross_spec(up)->0.normalize_spec()->0;
        let u = s.cross_spec(f)->0;
        let b = reversed(f);
        lemma_row_takes_point_to_zero(
            s.x as int,
            s.y as int,
            s.z as int,
            eye.x as int,
            eye.y as int,
            eye.z as int,
        );
        lemma_row_takes_point_to_zero(
            u.x as int,
            u.y as int,
            u.z as int,
            eye.x as int,
            eye.y as int,
            eye.z as int,
        );
        lemma_row_takes_point_to_zero(
            b.x as int,
            b.y as int,
            b.z as int,
            eye.x as int,
            eye.y as int,
            eye.z as int,
        );
        assert(dot4(0, eye.x as int, 0, eye.y as int, 0, eye.z as int, 65536, 65536) == 65536)
            by (nonlinear_arith);
    }
}

/// The right-handed perspective matrix of a lens, with depth from zero at the
/// near plane to `w` at the far plane. The entry that shifts the depth is the
/// negative of what the matrix makes of the near plane's `z`, so that the near
/// plane goes to the depth zero exactly. The far plane goes to the depth `w`
/// as nearly as the entries, rounded to fixed-point scalars, allow. Nothing
/// where the aspect ratio is zero, the two planes coincide, or an entry does
/// not fit.
pub open spec fn perspective_spec(focal: i32, aspect_ratio: i32, near: i32, far: i32) -> Option<
    Mat4,
> {
    let w = fixed_div(focal as int, aspect_ratio as int);
    let r = fixed_div(far as int, near - far);
    let rn = -fixed_mul(r, -near);
    if aspect_ratio != 0 && near != far && fits(w) && fits(r) && fits(rn) {
        Some(
            (Mat4 {
                x_axis: Vec4 { x: w as i32, y: 0, z: 0, w: 0 },
                y_axis: Vec4 { x: 0, y: focal, z: 0, w: 0 },
                z_axis: Vec4 { x: 0, y: 0, z: r as i32, w: -65536i32 },
                w_axis: Vec4 { x: 0, y: 0, z: rn as i32, w: 0 },
            }),
        )
    } else {
        None
    }
}

/// Computes [`perspective_spec`].
pub fn perspective(focal: i32, aspect_ratio: i32, near: i32, far: i32) -> (r: Option<Mat4>)
    ensures
        r == perspective_spec(focal, aspect_ratio, near, far),
{
    let w = match divide(focal, aspect_ratio) {
        Some(w) => w,
        None => { return None; },
    };
    let depth = near as i64 - far as i64;
    if depth == 0 {
        return None;
    }
    let r: i128 = match ((far as i128) * 65536).checked_div_euclid(depth as i128) {
        Some(r) => r,
        None => { return None; },
    };
    if r < -0x8000_0000 || r > 0x7FFF_FFFF {
        return None;
    }
    let r = r as i32;
    assert(-0x8000_0000 * 0x8000_0000 <= r * (-near) <= 0x8000_0000 * 0x8000_0000)
        by (nonlinear_arith)
        requires
            -0x8000_0000 <= r <= 0x8000_0000,
            -0x8000_0000 <= -near <= 0x8000_0000,
    ;
    let rn = -div_floor((r as i128) * (-(near as i128)), 65536);
    if rn < -0x8000_0000 || rn > 0x7FFF_FFFF {
        return None;
    }
    Some(
        Mat4 {
            x_axis: Vec4 { x: w, y: 0, z: 0, w: 0 },
            y_axis: Vec4 { x: 0, y: focal, z: 0, w: 0 },
            z_axis: Vec4 { x: 0, y: 0, z: r, w: -65536 },
            w_axis: Vec4 { x: 0, y: 0, z: rn as i32, w: 0 },
        },
    )
}

/// The perspective matrix takes every point of the near plane to the depth
/// zero, and gives it the distance of the plane as its `w`.
pub proof fn lemma_near_plane_has_depth_zero(
    focal: i32,
    aspect_ratio: i32,
    near: i32,
    far: i32,
    x: i32,
    y: i32,
)
    requires
        near > i32::MIN,
    ensures
        perspective_spec(focal, aspect_ratio, near, far) matches Some(m) ==> (m.mul_vec4_spec(
            Vec4 { x, y, z: (-near) as i32, w: 65536 },
        ) matches Some(p) ==> p.z == 0 && p.w == near),
{
    if let Some(m) = perspective_spec(focal, aspect_ratio, near, far) {
        let r = m.z_axis.z as int;
        let n = r * (-near);
        let q = n / 65536;
        assert(0 * x == 0 && 0 * y == 0 && 0int * 65536 == 0) by (nonlinear_arith);
        assert((-q) * 65536 == -(q * 65536)) by (nonlinear_arith);
        assert((n - q * 65536) / 65536 == 0);
        assert((-65536) * (-near) == 65536 * near) by (nonlinear_arith);
        assert((65536 * near) / 65536 == near);
    }
}

/// The perspective matrix of a lens whose far plane lies beyond its near
/// plane takes every point of the far plane to a depth that is not beyond
/// its `w`, the distance of the plane, and that falls short of it by no more
/// than the rounding of the entries: by less than a 65536th of the distance
/// between the planes and one unit.
pub proof fn lemma_far_plane_has_depth_w(
    focal: i32,
    aspect_ratio: i32,
    near: i32,
    far: i32,
    x: i32,
    y: i32,
)
    requires
        0 < near < far,
    ensures
        perspective_spec(focal, aspect_ratio, near, far) matches Some(m) ==> (m.mul_vec4_spec(
            Vec4 { x, y, z: (-far) as i32, w: 65536 },
        ) matches Some(p) ==> {
            &&& p.w == far
            &&& p.z <= far
            &&& (far - p.z - 1) * 65536 < far - near
        }),
{
    if let Some(m) = perspective_spec(focal, aspect_ratio, near, far) {
        let d = far - near;
        let n = far * 65536;
        let big = n / d;
        let rem = n % d;
        vstd::arithmetic::div_mod::lemma_fundamental_div_mod(n, d);
        lemma_div_by_negative(n, near - far);
        let r = m.z_axis.z as int;
        assert(r == -big);
        let a = big * far;
        let b = big * near;
        assert(r * (-far) == a && r * (-near) == b) by (nonlinear_arith)
            requires
                r == -big,
                a == big * far,
                b == big * near,
        ;
        assert(a - b == d * big) by (nonlinear_arith)
            requires
                a == big * far,
                b == big * near,
                d == far - near,
        ;
        let qa = a / 65536;
        let qb = b / 65536;
        assert(0 * x == 0 && 0 * y == 0) by (nonlinear_arith);
        assert((-qb) * 65536 == -(qb * 65536)) by (nonlinear_arith);
        assert((a - qb * 65536) / 65536 == qa - qb);
        assert((-65536) * (-far) == 65536 * far) by (nonlinear_arith);
        assert((65536 * far) / 65536 == far);
    }
}

impl Camera {
    /// The camera's pose is well formed.
    pub open spec fn wf(self) -> bool {
        self.transform.wf()
    }

    /// The camera that `default` gives: a right angle of view halved, a square
    /// picture, planes at a tenth and at a hundred, at the origin.
    pub open spec fn default_spec() -> Camera {
        Camera {
            frustum_near: 6554,
            frustum_far: 6553600,
            focal: 158218,
            aspect_ratio: 65536,
            transform: Transform::identity_spec(),
            speed: 655360,
        }
    }

    /// The matrix that takes the camera's space to clip space.
    pub open spec fn projection_spec(self) -> Option<Mat4> {
        perspective_spec(self.focal, self.aspect_ratio, self.frustum_near, self.frustum_far)
    }

    /// The matrix that takes the camera's space to clip space.
    pub fn projection(&self) -> (r: Option<Mat4>)
        ensures
            r == self.projection_spec(),
    {
        perspective(self.focal, self.aspect_ratio, self.frustum_near, self.frustum_far)
    }

    /// The matrix that takes the world to the camera's space: the camera
    /// looks from its position at the point one step forward of it.
    pub open spec fn view_spec(self) -> Option<Mat4> {
        let eye = self.transform.translation;
        let forward = self.transform.forward_spec();
        if eye.add_fits(forward) {
            look_at_spec(eye, eye.add_spec(forward), self.transform.up_spec())
        } else {
            None
        }
    }

    /// The matrix that takes the world to the camera's space.
    pub fn view(&self) -> (r: Option<Mat4>)
        requires
            self.wf(),
        ensures
            r == self.view_spec(),
    {
        let eye = self.transform.translation;
        let forward = self.transform.forward();
        let cx = eye.x as i64 + forward.x as i64;
        let cy = eye.y as i64 + forward.y as i64;
        let cz = eye.z as i64 + forward.z as i64;
        if cx < -0x8000_0000 || cx > 0x7FFF_FFFF || cy < -0x8000_0000 || cy > 0x7FFF_FFFF || cz
            < -0x8000_0000 || cz > 0x7FFF_FFFF {
            return None;
        }
        look_at(eye, eye.add(forward), self.transform.up())
    }
}

impl Default for Camera {
    fn default() -> (r: Camera)
        ensures
            r == Camera::default_spec(),
            r.wf(),
    {
        proof {
            lemma_identity_is_unit();
        }
        Camera {
            frustum_near: 6554,
            frustum_far: 6553600,
            focal: 158218,
            aspect_ratio: 65536,
            transform: Transform::identity(),
            speed: 655360,
        }
    }
}

} // verus!
