//! Four-by-four matrices of fixed-point scalars, stored by columns.
use vstd::prelude::*;
use crate::fixed::{div_floor, fits};
use crate::utils::lemma_mul_bound;
use crate::vector::{Vec3, Vec4};

verus! {

/// The sum of four products of fixed-point scalars, as a fixed-point scalar
/// rounded towards negative infinity.
pub open spec fn dot4(
    a0: int,
    b0: int,
    a1: int,
    b1: int,
    a2: int,
    b2: int,
    a3: int,
    b3: int,
) -> int {
    (a0 * b0 + a1 * b1 + a2 * b2 + a3 * b3) / 65536
}

/// The difference of two products of fixed-point scalars, as a fixed-point
/// scalar rounded towards negative infinity.
pub open spec fn det2(a: int, b: int, c: int, d: int) -> int {
    (a * b - c * d) / 65536
}

/// A matrix with the columns `x_axis`, `y_axis`, `z_axis` and `w_axis`.
#[derive(Debug, Copy, Clone, PartialEq, Eq, Structural)]
pub struct Mat4 {
    pub x_axis: Vec4,
    pub y_axis: Vec4,
    pub z_axis: Vec4,
    pub w_axis: Vec4,
}

fn dot(a0: i32, b0: i32, a1: i32, b1: i32, a2: i32, b2: i32, a3: i32, b3: i32) -> (r: Option<i32>)
    ensures
        r == if fits(
            dot4(
                a0 as int,
                b0 as int,
                a1 as int,
                b1 as int,
                a2 as int,
                b2 as int,
                a3 as int,
                b3 as int,
            ),
        ) {
            Some(
                dot4(
                    a0 as int,
                    b0 as int,
                    a1 as int,
                    b1 as int,
                    a2 as int,
                    b2 as int,
                    a3 as int,
                    b3 as int,
                ) as i32,
            )
        } else {
            None
        },
{
    proof {
        lemma_mul_bound(a0 as int, b0 as int, 0x8000_0000, 0x8000_0000);
        lemma_mul_bound(a1 as int, b1 as int, 0x8000_0000, 0x8000_0000);
        lemma_mul_bound(a2 as int, b2 as int, 0x8000_0000, 0x8000_0000);
        lemma_mul_bound(a3 as int, b3 as int, 0x8000_0000, 0x8000_0000);
    }
    let sum: i128 = (a0 as i128) * (b0 as i128) + (a1 as i128) * (b1 as i128) + (a2 as i128) * (
    b2 as i128) + (a3 as i128) * (b3 as i128);
    let q = div_floor(sum, 65536);
    if -0x8000_0000 <= q && q <= 0x7FFF_FFFF {
        Some(q as i32)
    } else {
        None
    }
}

fn minor(a: i32, b: i32, c: i32, d: i32) -> (r: Option<i32>)
    ensures
        r == if fits(det2(a as int, b as int, c as int, d as int)) {
            Some(det2(a as int, b as int, c as int, d as int) as i32)
        } else {
            None
        },
{
    proof {
        lemma_mul_bound(a as int, b as int, 0x8000_0000, 0x8000_0000);
        lemma_mul_bound(c as int, d as int, 0x8000_0000, 0x8000_0000);
    }
    let difference: i128 = (a as i128) * (b as i128) - (c as i128) * (d as i128);
    let q = div_floor(difference, 65536);
    if -0x8000_0000 <= q && q <= 0x7FFF_FFFF {
        Some(q as i32)
    } else {
        None
    }
}

/// The cross product of two directions, component by component; nothing
/// where a component does not fit.
pub open spec fn cross_spec(u: Vec4, v: Vec4) -> Option<Vec4> {
    let x = det2(u.y as int, v.z as int, u.z as int, v.y as int);
    let y = det2(u.z as int, v.x as int, u.x as int, v.z as int);
    let z = det2(u.x as int, v.y as int, u.y as int, v.x as int);
    if fits(x) && fits(y) && fits(z) {
        Some((Vec4 { x: x as i32, y: y as i32, z: z as i32, w: 0 }))
    } else {
        None
    }
}

fn cross(u: Vec4, v: Vec4) -> (r: Option<Vec4>)
    ensures
        r == cross_spec(u, v),
{
    let x = match minor(u.y, v.z, u.z, v.y) {
        Some(x) => x,
        None => { return None; },
    };
    let y = match minor(u.z, v.x, u.x, v.z) {
        Some(y) => y,
        None => { return None; },
    };
    let z = match minor(u.x, v.y, u.y, v.x) {
        Some(z) => z,
        None => { return None; },
    };
    Some(Vec4 { x, y, z, w: 0 })
}

impl Vec3 {
    /// The cross product with `rhs`; nothing where a component of it does not fit.
    pub open spec fn cross_spec(self, rhs: Vec3) -> Option<Vec3> {
        match cross_spec(
            Vec4 { x: self.x, y: self.y, z: self.z, w: 0 },
            Vec4 { x: rhs.x, y: rhs.y, z: rhs.z, w: 0 },
        ) {
            Some(v) => Some((Vec3 { x: v.x, y: v.y, z: v.z })),
            None => None,
        }
    }

    /// The cross product with `rhs`.
    pub fn cross(self, rhs: Vec3) -> (r: Option<Vec3>)
        ensures
            r == self.cross_spec(rhs),
    {
        match cross(self.extend(0), rhs.extend(0)) {
            Some(v) => Some(v.xyz()),
            None => None,
        }
    }

    /// The dot product with `rhs`; nothing where it does not fit.
    pub open spec fn dot_spec(self, rhs: Vec3) -> Option<i32> {
        let d = dot4(
            self.x as int,
            rhs.x as int,
            self.y as int,
            rhs.y as int,
            self.z as int,
            rhs.z as int,
            0,
            0,
        );
        if fits(d) {
            Some(d as i32)
        } else {
            None
        }
    }

    /// The dot product with `rhs`.
    pub fn dot(self, rhs: Vec3) -> (r: Option<i32>)
        ensures
            r == self.dot_spec(rhs),
    {
        dot(self.x, rhs.x, self.y, rhs.y, self.z, rhs.z, 0, 0)
    }
}

impl Mat4 {
    /// The matrix that changes no vector.
    pub open spec fn identity_spec() -> Mat4 {
        Mat4 {
            x_axis: Vec4 { x: 65536, y: 0, z: 0, w: 0 },
            y_axis: Vec4 { x: 0, y: 65536, z: 0, w: 0 },
            z_axis: Vec4 { x: 0, y: 0, z: 65536, w: 0 },
            w_axis: Vec4 { x: 0, y: 0, z: 0, w: 65536 },
        }
    }

    /// The matrix that changes no vector.
    pub fn identity() -> (r: Mat4)
        ensures
            r == Self::identity_spec(),
    {
        Mat4 {
            x_axis: Vec4 { x: 65536, y: 0, z: 0, w: 0 },
            y_axis: Vec4 { x: 0, y: 65536, z: 0, w: 0 },
            z_axis: Vec4 { x: 0, y: 0, z: 65536, w: 0 },
            w_axis: Vec4 { x: 0, y: 0, z: 0, w: 65536 },
        }
    }

    /// The matrix with the given columns.
    pub fn from_cols(x_axis: Vec4, y_axis: Vec4, z_axis: Vec4, w_axis: Vec4) -> (r: Mat4)
        ensures
            r == (Mat4 { x_axis, y_axis, z_axis, w_axis }),
    {
        Mat4 { x_axis, y_axis, z_axis, w_axis }
    }

    /// The product of the matrix and a vector; nothing where a component of
    /// it does not fit a fixed-point scalar.
    pub open spec fn mul_vec4_spec(self, v: Vec4) -> Option<Vec4> {
        let x = dot4(
            self.x_axis.x as int,
            v.x as int,
            self.y_axis.x as int,
            v.y as int,
            self.z_axis.x as int,
            v.z as int,
            self.w_axis.x as int,
            v.w as int,
        );
        let y = dot4(
            self.x_axis.y as int,
            v.x as int,
            self.y_axis.y as int,
            v.y as int,
            self.z_axis.y as int,
            v.z as int,
            self.w_axis.y as int,
            v.w as int,
        );
        let z = dot4(
            self.x_axis.z as int,
            v.x as int,
            self.y_axis.z as int,
            v.y as int,
            self.z_axis.z as int,
            v.z as int,
            self.w_axis.z as int,
            v.w as int,
        );
        let w = dot4(
            self.x_axis.w as int,
            v.x as int,
            self.y_axis.w as int,
            v.y as int,
            self.z_axis.w as int,
            v.z as int,
            self.w_axis.w as int,
            v.w as int,
        );
        if fits(x) && fits(y) && fits(z) && fits(w) {
            Some((Vec4 { x: x as i32, y: y as i32, z: z as i32, w: w as i32 }))
        } else {
            None
        }
    }

    /// Multiplies the matrix by a vector.
    pub fn mul_vec4(&self, v: Vec4) -> (r: Option<Vec4>)
        ensures
            r == self.mul_vec4_spec(v),
    {
        let x = match dot(
            self.x_axis.x,
            v.x,
            self.y_axis.x,
            v.y,
            self.z_axis.x,
            v.z,
            self.w_axis.x,
            v.w,
        ) {
            Some(x) => x,
            None => { return None; },
        };
        let y = match dot(
            self.x_axis.y,
            v.x,
            self.y_axis.y,
            v.y,
            self.z_axis.y,
            v.z,
            self.w_axis.y,
            v.w,
        ) {
            Some(y) => y,
            None => { return None; },
        };
        let z = match dot(
            self.x_axis.z,
            v.x,
            self.y_axis.z,
            v.y,
            self.z_axis.z,
            v.z,
            self.w_axis.z,
            v.w,
        ) {
            Some(z) => z,
            None => { return None; },
        };
        let w = match dot(
            self.x_axis.w,
            v.x,
            self.y_axis.w,
            v.y,
            self.z_axis.w,
            v.z,
            self.w_axis.w,
            v.w,
        ) {
            Some(w) => w,
            None => { return None; },
        };
        Some(Vec4 { x, y, z, w })
    }

    /// The product of two matrices, column by column; nothing where an entry
    /// of it does not fit a fixed-point scalar.
    pub open spec fn mul_mat4_spec(self, rhs: Mat4) -> Option<Mat4> {
        match (
            self.mul_vec4_spec(rhs.x_axis),
            self.mul_vec4_spec(rhs.y_axis),
            self.mul_vec4_spec(rhs.z_axis),
            self.mul_vec4_spec(rhs.w_axis),
        ) {
            (Some(x_axis), Some(y_axis), Some(z_axis), Some(w_axis)) => Some(
                (Mat4 { x_axis, y_axis, z_axis, w_axis }),
            ),
            _ => None,
        }
    }

    /// Multiplies two matrices.
    pub fn mul_mat4(&self, rhs: &Mat4) -> (r: Option<Mat4>)
        ensures
            r == self.mul_mat4_spec(*rhs),
    {
        let x_axis = match self.mul_vec4(rhs.x_axis) {
            Some(c) => c,
            None => { return None; },
        };
        let y_axis = match self.mul_vec4(rhs.y_axis) {
            Some(c) => c,
            None => { return None; },
        };
        let z_axis = match self.mul_vec4(rhs.z_axis) {
            Some(c) => c,
            None => { return None; },
        };
        let w_axis = match self.mul_vec4(rhs.w_axis) {
            Some(c) => c,
            None => { return None; },
        };
        Some(Mat4 { x_axis, y_axis, z_axis, w_axis })
    }

    /// The matrix of cofactors of the upper left three-by-three block, by
    /// which normals are transformed: its columns are the cross products of
    /// the block's other two columns. Nothing where an entry does not fit.
    pub open spec fn cofactor_spec(self) -> Option<Mat4> {
        match (
            cross_spec(self.y_axis, self.z_axis),
            cross_spec(self.z_axis, self.x_axis),
            cross_spec(self.x_axis, self.y_axis),
        ) {
            (Some(x_axis), Some(y_axis), Some(z_axis)) => Some(
                (Mat4 { x_axis, y_axis, z_axis, w_axis: Vec4 { x: 0, y: 0, z: 0, w: 65536 } }),
            ),
            _ => None,
        }
    }

    /// The matrix by which normals are transformed.
    pub fn cofactor(&self) -> (r: Option<Mat4>)
        ensures
            r == self.cofactor_spec(),
    {
        let x_axis = match cross(self.y_axis, self.z_axis) {
            Some(c) => c,
            None => { return None; },
        };
        let y_axis = match cross(self.z_axis, self.x_axis) {
            Some(c) => c,
            None => { return None; },
        };
        let z_axis = match cross(self.x_axis, self.y_axis) {
            Some(c) => c,
            None => { return None; },
        };
        Some(Mat4 { x_axis, y_axis, z_axis, w_axis: Vec4 { x: 0, y: 0, z: 0, w: 65536 } })
    }
}

/// The identity matrix changes no vector.
pub proof fn lemma_identity_keeps(v: Vec4)
    ensures
        Mat4::identity_spec().mul_vec4_spec(v) == Some(v),
{
    assert(dot4(65536, v.x as int, 0, v.y as int, 0, v.z as int, 0, v.w as int) == v.x)
        by (nonlinear_arith);
    assert(dot4(0, v.x as int, 65536, v.y as int, 0, v.z as int, 0, v.w as int) == v.y)
        by (nonlinear_arith);
    assert(dot4(0, v.x as int, 0, v.y as int, 65536, v.z as int, 0, v.w as int) == v.z)
        by (nonlinear_arith);
    assert(dot4(0, v.x as int, 0, v.y as int, 0, v.z as int, 65536, v.w as int) == v.w)
        by (nonlinear_arith);
}

} // verus!
