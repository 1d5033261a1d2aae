//! The pose of an object: where it stands, how it is turned and how large it is.
use vstd::prelude::*;
use vstd::std_specs::convert::FromSpecImpl;
use crate::fixed::{div_floor, is_sqrt, isqrt, lemma_sqrt_exists, sqrt_spec};
use crate::matrix::Mat4;
use crate::utils::{lemma_div_between, lemma_mul_bound};
use crate::vector::{Vec3, Vec4};

verus! {

/// A rotation as a quaternion.
#[derive(Debug, Copy, Clone, PartialEq, Eq, Structural)]
pub struct Quat {
    pub x: i32,
    pub y: i32,
    pub z: i32,
    pub w: i32,
}

/// The sum of the squares of up to four components.
pub open spec fn sum_of_squares(x: int, y: int, z: int, w: int) -> int {
    x * x + y * y + z * z + w * w
}

/// The sum of squares is that of a vector of the length one up to rounding:
/// it differs from the square of one by less than one part in four thousand.
pub open spec fn is_unit(squares: int) -> bool {
    0x1_0000_0000 - 0x10_0000 <= squares <= 0x1_0000_0000 + 0x10_0000
}

/// The length of a vector with the given sum of squares, with 32 fractional
/// bits more than the components have.
pub open spec fn fine_length(squares: int) -> int {
    sqrt_spec(squares * 0x1_0000_0000)
}

/// The component `c` of a vector of the length `len` taken by
/// [`fine_length`], after the vector has been scaled to the length one.
pub open spec fn unit_component(c: int, len: int) -> int {
    (c * 0x1_0000_0000) / len
}

/// A component is no longer than the vector it belongs to.
proof fn lemma_component_below_length(c: int, squares: int, len: int)
    by (nonlinear_arith)
    requires
        c * c <= squares,
        is_sqrt(squares * 0x1_0000_0000, len),
    ensures
        -len <= c * 0x1_0000 <= len,
{
    assert((c * 0x1_0000) * (c * 0x1_0000) == (c * c) * 0x1_0000_0000);
    assert((c * 0x1_0000) * (c * 0x1_0000) < (len + 1) * (len + 1));
}

/// The squares of components add up to at least each of them.
proof fn lemma_squares_cover(x: int, y: int, z: int, w: int)
    by (nonlinear_arith)
    ensures
        x * x <= sum_of_squares(x, y, z, w),
        y * y <= sum_of_squares(x, y, z, w),
        z * z <= sum_of_squares(x, y, z, w),
        w * w <= sum_of_squares(x, y, z, w),
        0 <= sum_of_squares(x, y, z, w),
        -0x8000_0000 <= x <= 0x8000_0000 && -0x8000_0000 <= y <= 0x8000_0000 && -0x8000_0000 <= z
            <= 0x8000_0000 && -0x8000_0000 <= w <= 0x8000_0000 ==> sum_of_squares(x, y, z, w) <= 4
            * (0x8000_0000 * 0x8000_0000),
{
}

/// The fine length of a vector of fixed-point scalars.
fn length(x: i32, y: i32, z: i32, w: i32) -> (len: u64)
    ensures
        len == fine_length(sum_of_squares(x as int, y as int, z as int, w as int)),
        is_sqrt(sum_of_squares(x as int, y as int, z as int, w as int) * 0x1_0000_0000, len as int),
        len == 0 <==> (x == 0 && y == 0 && z == 0 && w == 0),
{
    proof {
        lemma_squares_cover(x as int, y as int, z as int, w as int);
        lemma_mul_bound(x as int, x as int, 0x8000_0000, 0x8000_0000);
        lemma_mul_bound(y as int, y as int, 0x8000_0000, 0x8000_0000);
        lemma_mul_bound(z as int, z as int, 0x8000_0000, 0x8000_0000);
        lemma_mul_bound(w as int, w as int, 0x8000_0000, 0x8000_0000);
    }
    let squares: u128 = ((x as i128) * (x as i128) + (y as i128) * (y as i128) + (z as i128) * (
    z as i128) + (w as i128) * (w as i128)) as u128;
    let len = isqrt(squares * 0x1_0000_0000);
    proof {
        if x != 0 || y != 0 || z != 0 || w != 0 {
            assert(squares >= 1) by (nonlinear_arith)
                requires
                    squares == x * x + y * y + z * z + w * w,
                    x != 0 || y != 0 || z != 0 || w != 0,
            ;
            assert(len >= 1) by (nonlinear_arith)
                requires
                    squares >= 1,
                    squares * 0x1_0000_0000 < (len + 1) * (len + 1),
                    len >= 0,
            ;
        } else {
            assert(squares == 0) by (nonlinear_arith)
                requires
                    squares == x * x + y * y + z * z + w * w,
                    x == 0 && y == 0 && z == 0 && w == 0,
            ;
            assert(len == 0) by (nonlinear_arith)
                requires
                    squares == 0,
                    len * len <= squares * 0x1_0000_0000,
                    len >= 0,
            ;
        }
    }
    len
}

/// One component of a vector scaled to the length one.
fn unit(c: i32, len: u64, Ghost(squares): Ghost<int>) -> (r: i32)
    requires
        len > 0,
        c * c <= squares,
        is_sqrt(squares * 0x1_0000_0000, len as int),
    ensures
        r == unit_component(c as int, len as int),
        -65536 <= r <= 65536,
{
    proof {
        lemma_component_below_length(c as int, squares, len as int);
        lemma_div_between(c * 0x1_0000_0000, len as int, -65536, 65536);
    }
    div_floor((c as i128) * 0x1_0000_0000, len as i128) as i32
}

impl Quat {
    /// The rotation that turns nothing.
    pub open spec fn identity_spec() -> Quat {
        Quat { x: 0, y: 0, z: 0, w: 65536 }
    }

    /// The rotation that turns nothing.
    pub fn identity() -> (r: Quat)
        ensures
            r == Self::identity_spec(),
            r.is_normalized(),
    {
        proof {
            lemma_identity_is_unit();
        }
        Quat { x: 0, y: 0, z: 0, w: 65536 }
    }

    pub fn from_xyzw(x: i32, y: i32, z: i32, w: i32) -> (r: Quat)
        ensures
            r == (Quat { x, y, z, w }),
    {
        Quat { x, y, z, w }
    }

    /// The quaternion has the length one up to rounding, and so no component
    /// larger than one.
    pub open spec fn is_normalized(self) -> bool {
        &&& -65536 <= self.x <= 65536
        &&& -65536 <= self.y <= 65536
        &&& -65536 <= self.z <= 65536
        &&& -65536 <= self.w <= 65536
        &&& is_unit(sum_of_squares(self.x as int, self.y as int, self.z as int, self.w as int))
    }

    /// The quaternion scaled to the length one; the identity where all its
    /// components are zero.
    pub open spec fn normalize_spec(self) -> Quat {
        let len = fine_length(
            sum_of_squares(self.x as int, self.y as int, self.z as int, self.w as int),
        );
        if len == 0 {
            Self::identity_spec()
        } else {
            Quat {
                x: unit_component(self.x as int, len) as i32,
                y: unit_component(self.y as int, len) as i32,
                z: unit_component(self.z as int, len) as i32,
                w: unit_component(self.w as int, len) as i32,
            }
        }
    }

    /// Scales the quaternion to the length one.
    pub fn normalize(self) -> (r: Quat)
        ensures
            r == self.normalize_spec(),
            r.is_normalized(),
    {
        proof {
            lemma_normalized_is_unit(self);
        }
        let len = length(self.x, self.y, self.z, self.w);
        if len == 0 {
            return Quat { x: 0, y: 0, z: 0, w: 65536 };
        }
        let ghost squares = sum_of_squares(
            self.x as int,
            self.y as int,
            self.z as int,
            self.w as int,
        );
        proof {
            lemma_squares_cover(self.x as int, self.y as int, self.z as int, self.w as int);
        }
        Quat {
            x: unit(self.x, len, Ghost(squares)),
            y: unit(self.y, len, Ghost(squares)),
            z: unit(self.z, len, Ghost(squares)),
            w: unit(self.w, len, Ghost(squares)),
        }
    }
}

impl Vec3 {
    /// The vector scaled to the length one; nothing where all its components
    /// are zero.
    pub open spec fn normalize_spec(self) -> Option<Vec3> {
        let len = fine_length(sum_of_squares(self.x as int, self.y as int, self.z as int, 0));
        if len == 0 {
            None
        } else {
            Some(
                (Vec3 {
                    x: unit_component(self.x as int, len) as i32,
                    y: unit_component(self.y as int, len) as i32,
                    z: unit_component(self.z as int, len) as i32,
                }),
            )
        }
    }

    /// The vector has the length one up to rounding, and so no component
    /// larger than one.
    pub open spec fn is_normalized(self) -> bool {
        &&& -65536 <= self.x <= 65536
        &&& -65536 <= self.y <= 65536
        &&& -65536 <= self.z <= 65536
        &&& is_unit(sum_of_squares(self.x as int, self.y as int, self.z as int, 0))
    }

    /// Scales the vector to the length one.
    pub fn normalize(self) -> (r: Option<Vec3>)
        ensures
            r == self.normalize_spec(),
            r matches Some(v) ==> v.is_normalized(),
    {
        proof {
            lemma_normalized_vector_is_unit(self);
        }
        let len = length(self.x, self.y, self.z, 0);
        if len == 0 {
            return None;
        }
        let ghost squares = sum_of_squares(self.x as int, self.y as int, self.z as int, 0);
        proof {
            lemma_squares_cover(self.x as int, self.y as int, self.z as int, 0);
        }
        Some(
            Vec3 {
                x: unit(self.x, len, Ghost(squares)),
                y: unit(self.y, len, Ghost(squares)),
                z: unit(self.z, len, Ghost(squares)),
            },
        )
    }
}

/// An entry on the diagonal of the matrix of a rotation: one less twice the
/// squares of two components of the quaternion.
pub open spec fn rotation_diagonal(a: int, b: int) -> int {
    (65536 * 65536 - 2 * (a * a + b * b)) / 65536
}

/// An entry off the diagonal of the matrix of a rotation: twice the sum of
/// two products of components of the quaternion.
pub open spec fn rotation_mixed(a: int, b: int, c: int, d: int) -> int {
    (2 * (a * b + c * d)) / 65536
}

fn diagonal(a: i32, b: i32) -> (r: i32)
    requires
        -65536 <= a <= 65536,
        -65536 <= b <= 65536,
    ensures
        r == rotation_diagonal(a as int, b as int),
        -5 * 65536 <= r <= 5 * 65536,
{
    proof {
        lemma_mul_bound(a as int, a as int, 65536, 65536);
        lemma_mul_bound(b as int, b as int, 65536, 65536);
    }
    let n: i128 = 65536 * 65536 - 2 * ((a as i128) * (a as i128) + (b as i128) * (b as i128));
    div_floor(n, 65536) as i32
}

fn mixed(a: i32, b: i32, c: i32, d: i32) -> (r: i32)
    requires
        -65536 <= a <= 65536,
        -65536 <= b <= 65536,
        -65536 <= c <= 65536,
        -65536 <= d <= 65536,
    ensures
        r == rotation_mixed(a as int, b as int, c as int, d as int),
        -5 * 65536 <= r <= 5 * 65536,
{
    proof {
        lemma_mul_bound(a as int, b as int, 65536, 65536);
        lemma_mul_bound(c as int, d as int, 65536, 65536);
    }
    let n: i128 = 2 * ((a as i128) * (b as i128) + (c as i128) * (d as i128));
    div_floor(n, 65536) as i32
}

impl Mat4 {
    /// The matrix that moves every point by `t`.
    pub open spec fn from_translation_spec(t: Vec3) -> Mat4 {
        Mat4 { w_axis: Vec4 { x: t.x, y: t.y, z: t.z, w: 65536 }, ..Mat4::identity_spec() }
    }

    /// The matrix that moves every point by `t`.
    pub fn from_translation(t: Vec3) -> (r: Mat4)
        ensures
            r == Self::from_translation_spec(t),
    {
        Mat4 {
            x_axis: Vec4 { x: 65536, y: 0, z: 0, w: 0 },
            y_axis: Vec4 { x: 0, y: 65536, z: 0, w: 0 },
            z_axis: Vec4 { x: 0, y: 0, z: 65536, w: 0 },
            w_axis: Vec4 { x: t.x, y: t.y, z: t.z, w: 65536 },
        }
    }

    /// The matrix that scales each axis by the matching component of `s`.
    pub open spec fn from_scale_spec(s: Vec3) -> Mat4 {
        Mat4 {
            x_axis: Vec4 { x: s.x, y: 0, z: 0, w: 0 },
            y_axis: Vec4 { x: 0, y: s.y, z: 0, w: 0 },
            z_axis: Vec4 { x: 0, y: 0, z: s.z, w: 0 },
            w_axis: Vec4 { x: 0, y: 0, z: 0, w: 65536 },
        }
    }

    /// The matrix that scales each axis by the matching component of `s`.
    pub fn from_scale(s: Vec3) -> (r: Mat4)
        ensures
            r == Self::from_scale_spec(s),
    {
        Mat4 {
            x_axis: Vec4 { x: s.x, y: 0, z: 0, w: 0 },
            y_axis: Vec4 { x: 0, y: s.y, z: 0, w: 0 },
            z_axis: Vec4 { x: 0, y: 0, z: s.z, w: 0 },
            w_axis: Vec4 { x: 0, y: 0, z: 0, w: 65536 },
        }
    }

    /// The matrix of the rotation `q`.
    pub open spec fn from_quat_spec(q: Quat) -> Mat4 {
        let x = q.x as int;
        let y = q.y as int;
        let z = q.z as int;
        let w = q.w as int;
        Mat4 {
            x_axis: Vec4 {
                x: rotation_diagonal(y, z) as i32,
                y: rotation_mixed(x, y, w, z) as i32,
                z: rotation_mixed(x, z, -w, y) as i32,
                w: 0,
            },
            y_axis: Vec4 {
                x: rotation_mixed(x, y, -w, z) as i32,
                y: rotation_diagonal(x, z) as i32,
                z: rotation_mixed(y, z, w, x) as i32,
                w: 0,
            },
            z_axis: Vec4 {
                x: rotation_mixed(x, z, w, y) as i32,
                y: rotation_mixed(y, z, -w, x) as i32,
                z: rotation_diagonal(x, y) as i32,
                w: 0,
            },
            w_axis: Vec4 { x: 0, y: 0, z: 0, w: 65536 },
        }
    }

    /// The matrix of the rotation `q`.
    pub fn from_quat(q: Quat) -> (r: Mat4)
        requires
            q.is_normalized(),
        ensures
            r == Self::from_quat_spec(q),
    {
        Mat4 {
            x_axis: Vec4 {
                x: diagonal(q.y, q.z),
                y: mixed(q.x, q.y, q.w, q.z),
                z: mixed(q.x, q.z, -q.w, q.y),
                w: 0,
            },
            y_axis: Vec4 {
                x: mixed(q.x, q.y, -q.w, q.z),
                y: diagonal(q.x, q.z),
                z: mixed(q.y, q.z, q.w, q.x),
                w: 0,
            },
            z_axis: Vec4 {
                x: mixed(q.x, q.z, q.w, q.y),
                y: mixed(q.y, q.z, -q.w, q.x),
                z: diagonal(q.x, q.y),
                w: 0,
            },
            w_axis: Vec4 { x: 0, y: 0, z: 0, w: 65536 },
        }
    }
}

/// Position, rotation and scale of an object.
#[derive(Debug, Copy, Clone, PartialEq, Eq, Structural)]
pub struct Transform {
    pub translation: Vec3,
    pub rotation: Quat,
    pub scale: Vec3,
}

/// What a pose is made from.
#[derive(Debug, Copy, Clone, PartialEq, Eq, Structural)]
pub enum TransformInitialParams {
    Identity,
    Translation(Vec3),
    Rotation(Quat),
    TranslationRotation(Vec3, Quat),
}

impl Transform {
    /// The rotation is normalized.
    pub open spec fn wf(self) -> bool {
        self.rotation.is_normalized()
    }

    /// The pose of an object that is not moved, turned or scaled.
    pub open spec fn identity_spec() -> Transform {
        Transform {
            translation: Vec3 { x: 0, y: 0, z: 0 },
            rotation: Quat::identity_spec(),
            scale: Vec3 { x: 65536, y: 65536, z: 65536 },
        }
    }

    /// The pose of an object that is not moved, turned or scaled.
    pub fn identity() -> (r: Transform)
        ensures
            r == Self::identity_spec(),
            r.wf(),
    {
        proof {
            lemma_identity_is_unit();
        }
        Transform {
            translation: Vec3 { x: 0, y: 0, z: 0 },
            rotation: Quat { x: 0, y: 0, z: 0, w: 65536 },
            scale: Vec3 { x: 65536, y: 65536, z: 65536 },
        }
    }

    /// The pose with the given parts; the rotation is normalized.
    pub fn new(translation: Vec3, rotation: Quat, scale: Vec3) -> (r: Transform)
        ensures
            r == (Transform { translation, rotation: rotation.normalize_spec(), scale }),
            r.wf(),
    {
        Transform { translation, rotation: rotation.normalize(), scale }
    }

    /// The matrix of the pose: translation times rotation times scale.
    /// Nothing where an entry does not fit.
    pub open spec fn local_spec(self) -> Option<Mat4> {
        match Mat4::from_translation_spec(self.translation).mul_mat4_spec(
            Mat4::from_quat_spec(self.rotation),
        ) {
            Some(placed) => placed.mul_mat4_spec(Mat4::from_scale_spec(self.scale)),
            None => None,
        }
    }

    /// The matrix of the pose.
    pub fn local(&self) -> (r: Option<Mat4>)
        requires
            self.wf(),
        ensures
            r == self.local_spec(),
    {
        let turned = Mat4::from_quat(self.rotation);
        match Mat4::from_translation(self.translation).mul_mat4(&turned) {
            Some(placed) => placed.mul_mat4(&Mat4::from_scale(self.scale)),
            None => None,
        }
    }

    /// The pose of an object that is only moved.
    pub fn from_translation(translation: Vec3) -> (r: Transform)
        ensures
            r == (Transform { translation, ..Self::identity_spec() }),
            r.wf(),
    {
        proof {
            lemma_identity_is_unit();
        }
        Transform {
            translation,
            rotation: Quat { x: 0, y: 0, z: 0, w: 65536 },
            scale: Vec3 { x: 65536, y: 65536, z: 65536 },
        }
    }

    /// The pose of an object that is only turned; the rotation is normalized.
    pub fn from_rotation(rotation: Quat) -> (r: Transform)
        ensures
            r == (Transform { rotation: rotation.normalize_spec(), ..Self::identity_spec() }),
            r.wf(),
    {
        Transform {
            translation: Vec3 { x: 0, y: 0, z: 0 },
            rotation: rotation.normalize(),
            scale: Vec3 { x: 65536, y: 65536, z: 65536 },
        }
    }

    /// The pose of an object that is moved and turned; the rotation is normalized.
    pub fn from_translation_rotation(translation: Vec3, rotation: Quat) -> (r: Transform)
        ensures
            r == (Transform {
                translation,
                rotation: rotation.normalize_spec(),
                ..Self::identity_spec()
            }),
            r.wf(),
    {
        Transform {
            translation,
            rotation: rotation.normalize(),
            scale: Vec3 { x: 65536, y: 65536, z: 65536 },
        }
    }

    /// The pose that the parameters describe.
    pub open spec fn from_params(params: TransformInitialParams) -> Transform {
        match params {
            TransformInitialParams::Identity => Self::identity_spec(),
            TransformInitialParams::Translation(translation) => Transform {
                translation,
                ..Self::identity_spec()
            },
            TransformInitialParams::Rotation(rotation) => Transform {
                rotation: rotation.normalize_spec(),
                ..Self::identity_spec()
            },
            TransformInitialParams::TranslationRotation(translation, rotation) => Transform {
                translation,
                rotation: rotation.normalize_spec(),
                ..Self::identity_spec()
            },
        }
    }

    /// The direction to which the rotation turns the `x` axis.
    pub open spec fn right_spec(self) -> Vec3 {
        let m = Mat4::from_quat_spec(self.rotation);
        Vec3 { x: m.x_axis.x, y: m.x_axis.y, z: m.x_axis.z }
    }

    /// The direction to which the rotation turns the `y` axis.
    pub open spec fn up_spec(self) -> Vec3 {
        let m = Mat4::from_quat_spec(self.rotation);
        Vec3 { x: m.y_axis.x, y: m.y_axis.y, z: m.y_axis.z }
    }

    /// The direction to which the rotation turns the `z` axis.
    pub open spec fn forward_spec(self) -> Vec3 {
        let m = Mat4::from_quat_spec(self.rotation);
        Vec3 { x: m.z_axis.x, y: m.z_axis.y, z: m.z_axis.z }
    }

    /// The direction to which the rotation turns the `x` axis.
    pub fn right(&self) -> (r: Vec3)
        requires
            self.wf(),
        ensures
            r == self.right_spec(),
    {
        Mat4::from_quat(self.rotation).x_axis.xyz()
    }

    /// The direction to which the rotation turns the `y` axis.
    pub fn up(&self) -> (r: Vec3)
        requires
            self.wf(),
        ensures
            r == self.up_spec(),
    {
        Mat4::from_quat(self.rotation).y_axis.xyz()
    }

    /// The direction to which the rotation turns the `z` axis.
    pub fn forward(&self) -> (r: Vec3)
        requires
            self.wf(),
        ensures
            r == self.forward_spec(),
    {
        Mat4::from_quat(self.rotation).z_axis.xyz()
    }
}

impl From<TransformInitialParams> for Transform {
    fn from(params: TransformInitialParams) -> (r: Transform) {
        match params {
            TransformInitialParams::Identity => Transform::identity(),
            TransformInitialParams::Translation(translation) => Transform::from_translation(
                translation,
            ),
            TransformInitialParams::Rotation(rotation) => Transform::from_rotation(rotation),
            TransformInitialParams::TranslationRotation(translation, rotation) => {
                Transform::from_translation_rotation(translation, rotation)
            },
        }
    }
}

impl FromSpecImpl<TransformInitialParams> for Transform {
    open spec fn obeys_from_spec() -> bool {
        true
    }

    open spec fn from_spec(params: TransformInitialParams) -> Transform {
        Transform::from_params(params)
    }
}

/// A pose made from parameters has a normalized rotation.
pub proof fn lemma_from_params_wf(params: TransformInitialParams)
    ensures
        Transform::from_params(params).wf(),
{
    match params {
        TransformInitialParams::Rotation(rotation) => lemma_normalized_is_unit(rotation),
        TransformInitialParams::TranslationRotation(_, rotation) => lemma_normalized_is_unit(
            rotation,
        ),
        _ => lemma_identity_is_unit(),
    }
}

/// The square of one component of a vector scaled to the length one, times
/// the square of the vector's fine length, is the square of the component
/// with 32 fractional bits more, up to a bound that rounding sets.
proof fn lemma_unit_component(c: int, len: int)
    requires
        len > 0,
        -len <= c * 0x1_0000 <= len,
    ensures
        ({
            let r = unit_component(c, len);
            let a = c * 0x1_0000_0000;
            a * a - 0x2_0000 * (len * len) <= (len * len) * (r * r) <= a * a + 0x2_0001 * (len
                * len)
        }),
{
    let a = c * 0x1_0000_0000;
    let r = a / len;
    let e = a % len;
    vstd::arithmetic::div_mod::lemma_fundamental_div_mod(a, len);
    assert((len * len) * (r * r) == (a - e) * (a - e)) by (nonlinear_arith)
        requires
            a == len * r + e,
    ;
    assert((a - e) * (a - e) == a * a - 2 * (a * e) + e * e) by (nonlinear_arith);
    assert(0 <= e * e <= len * len) by (nonlinear_arith)
        requires
            0 <= e < len,
    ;
    assert(-(0x1_0000 * (len * len)) <= a * e <= 0x1_0000 * (len * len)) by (nonlinear_arith)
        requires
            0 <= e < len,
            -(0x1_0000 * len) <= a <= 0x1_0000 * len,
    ;
}

/// A vector that is not zero, scaled to the length one, has that length up to
/// rounding: no component is larger than one, and the sum of the squares of
/// the components differs from the square of one by less than one part in
/// four thousand.
pub proof fn lemma_unit_length(x: int, y: int, z: int, w: int)
    requires
        fine_length(sum_of_squares(x, y, z, w)) != 0,
    ensures
        ({
            let len = fine_length(sum_of_squares(x, y, z, w));
            let rx = unit_component(x, len);
            let ry = unit_component(y, len);
            let rz = unit_component(z, len);
            let rw = unit_component(w, len);
            &&& -65536 <= rx <= 65536
            &&& -65536 <= ry <= 65536
            &&& -65536 <= rz <= 65536
            &&& -65536 <= rw <= 65536
            &&& 0x1_0000_0000 - 0x10_0000 <= sum_of_squares(rx, ry, rz, rw) <= 0x1_0000_0000
                + 0x10_0000
        }),
{
    let squares = sum_of_squares(x, y, z, w);
    let len = fine_length(squares);
    lemma_squares_cover(x, y, z, w);
    lemma_sqrt_exists(squares * 0x1_0000_0000);
    lemma_component_below_length(x, squares, len);
    lemma_component_below_length(y, squares, len);
    lemma_component_below_length(z, squares, len);
    lemma_component_below_length(w, squares, len);
    lemma_div_between(x * 0x1_0000_0000, len, -65536, 65536);
    lemma_div_between(y * 0x1_0000_0000, len, -65536, 65536);
    lemma_div_between(z * 0x1_0000_0000, len, -65536, 65536);
    lemma_div_between(w * 0x1_0000_0000, len, -65536, 65536);
    lemma_unit_component(x, len);
    lemma_unit_component(y, len);
    lemma_unit_component(z, len);
    lemma_unit_component(w, len);
    let rx = unit_component(x, len);
    let ry = unit_component(y, len);
    let rz = unit_component(z, len);
    let rw = unit_component(w, len);
    let n = sum_of_squares(rx, ry, rz, rw);
    let ax = x * 0x1_0000_0000;
    let ay = y * 0x1_0000_0000;
    let az = z * 0x1_0000_0000;
    let aw = w * 0x1_0000_0000;
    let total = ax * ax + ay * ay + az * az + aw * aw;
    let l2 = len * len;
    assert(l2 * n == l2 * (rx * rx) + l2 * (ry * ry) + l2 * (rz * rz) + l2 * (rw * rw))
        by (nonlinear_arith)
        requires
            n == rx * rx + ry * ry + rz * rz + rw * rw,
    ;
    assert(total - 0x8_0000 * l2 <= l2 * n <= total + 0x8_0004 * l2);
    assert(total == 0x1_0000_0000 * (squares * 0x1_0000_0000)) by (nonlinear_arith)
        requires
            total == ax * ax + ay * ay + az * az + aw * aw,
            ax == x * 0x1_0000_0000,
            ay == y * 0x1_0000_0000,
            az == z * 0x1_0000_0000,
            aw == w * 0x1_0000_0000,
            squares == x * x + y * y + z * z + w * w,
    ;
    assert(squares >= 1 && l2 > 0) by (nonlinear_arith)
        requires
            squares >= 0,
            len > 0,
            l2 == len * len,
            len * len <= squares * 0x1_0000_0000,
    ;
    // the fine length is at least one, with 16 fractional bits
    assert(len >= 0x1_0000) by (nonlinear_arith)
        requires
            squares >= 1,
            squares * 0x1_0000_0000 < (len + 1) * (len + 1),
            len >= 0,
    ;
    assert(0x1_0000_0000 * l2 <= total <= 0x1_0000_0000 * l2 + 0x3_0000 * l2)
        by (nonlinear_arith)
        requires
            l2 == len * len,
            len >= 0x1_0000,
            total == 0x1_0000_0000 * (squares * 0x1_0000_0000),
            len * len <= squares * 0x1_0000_0000 < (len + 1) * (len + 1),
    ;
    assert(0x1_0000_0000 - 0x10_0000 <= n <= 0x1_0000_0000 + 0x10_0000) by (nonlinear_arith)
        requires
            l2 > 0,
            0xFFF8_0000 * l2 <= l2 * n <= 0x1_000B_0004 * l2,
    ;
}

/// The rotation that turns nothing is normalized.
pub proof fn lemma_identity_is_unit()
    ensures
        Quat::identity_spec().is_normalized(),
        Transform::identity_spec().wf(),
{
    assert(sum_of_squares(0, 0, 0, 65536) == 0x1_0000_0000) by (nonlinear_arith);
}

/// A quaternion scaled to the length one is a unit quaternion up to rounding.
pub proof fn lemma_normalized_is_unit(q: Quat)
    ensures
        q.normalize_spec().is_normalized(),
{
    let squares = sum_of_squares(q.x as int, q.y as int, q.z as int, q.w as int);
    if fine_length(squares) == 0 {
        assert(sum_of_squares(0, 0, 0, 65536) == 0x1_0000_0000) by (nonlinear_arith);
    } else {
        lemma_unit_length(q.x as int, q.y as int, q.z as int, q.w as int);
    }
}

/// A vector scaled to the length one is a unit vector up to rounding.
pub proof fn lemma_normalized_vector_is_unit(v: Vec3)
    ensures
        v.normalize_spec() matches Some(r) ==> r.is_normalized(),
{
    let squares = sum_of_squares(v.x as int, v.y as int, v.z as int, 0);
    let len = fine_length(squares);
    if len != 0 {
        lemma_unit_length(v.x as int, v.y as int, v.z as int, 0);
        assert(unit_component(0, len) == 0) by (nonlinear_arith)
            requires
                len != 0,
        ;
        let r = v.normalize_spec()->0;
        assert(sum_of_squares(r.x as int, r.y as int, r.z as int, 0) == sum_of_squares(
            r.x as int,
            r.y as int,
            r.z as int,
            unit_component(0, len),
        )) by (nonlinear_arith)
            requires
                unit_component(0, len) == 0,
        ;
    }
}

} // verus!
