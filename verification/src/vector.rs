//! Small vectors of fixed-point scalars, and the index triple of a mesh face.
use vstd::prelude::*;
use crate::fixed::{fits, fixed_mul, multiply, Ratio};
use crate::utils::{lerp, lerp_spec};

verus! {

/// A point or direction of the plane.
#[derive(Clone, Copy, Debug, PartialEq, Eq, Structural)]
pub struct Vec2 {
    pub x: i32,
    pub y: i32,
}

/// A point or direction of space.
#[derive(Clone, Copy, Debug, PartialEq, Eq, Structural)]
pub struct Vec3 {
    pub x: i32,
    pub y: i32,
    pub z: i32,
}

/// A homogeneous position, or a colour with `x`, `y`, `z` for red, green and blue.
#[derive(Clone, Copy, Debug, PartialEq, Eq, Structural)]
pub struct Vec4 {
    pub x: i32,
    pub y: i32,
    pub z: i32,
    pub w: i32,
}

/// The three vertex indices of one face.
#[derive(Clone, Copy, Debug, PartialEq, Eq, Structural)]
pub struct UVec3 {
    pub x: u32,
    pub y: u32,
    pub z: u32,
}

impl Vec2 {
    pub fn new(x: i32, y: i32) -> (r: Vec2)
        ensures
            r == (Vec2 { x, y }),
    {
        Vec2 { x, y }
    }

    /// The sum, component by component.
    pub open spec fn add_spec(self, rhs: Vec2) -> Vec2 {
        Vec2 { x: (self.x + rhs.x) as i32, y: (self.y + rhs.y) as i32 }
    }

    /// Every component of the sum fits.
    pub open spec fn add_fits(self, rhs: Vec2) -> bool {
        &&& fits(self.x + rhs.x)
        &&& fits(self.y + rhs.y)
    }

    /// Adds component by component.
    pub fn add(self, rhs: Vec2) -> (r: Vec2)
        requires
            self.add_fits(rhs),
        ensures
            r == self.add_spec(rhs),
    {
        Vec2 { x: self.x + rhs.x, y: self.y + rhs.y }
    }

    /// The difference, component by component.
    pub open spec fn sub_spec(self, rhs: Vec2) -> Vec2 {
        Vec2 { x: (self.x - rhs.x) as i32, y: (self.y - rhs.y) as i32 }
    }

    /// Every component of the difference fits.
    pub open spec fn sub_fits(self, rhs: Vec2) -> bool {
        &&& fits(self.x - rhs.x)
        &&& fits(self.y - rhs.y)
    }

    /// Subtracts component by component.
    pub fn sub(self, rhs: Vec2) -> (r: Vec2)
        requires
            self.sub_fits(rhs),
        ensures
            r == self.sub_spec(rhs),
    {
        Vec2 { x: self.x - rhs.x, y: self.y - rhs.y }
    }

    /// Every component multiplied by the scalar `rhs`.
    pub open spec fn scale_spec(self, rhs: i32) -> Vec2 {
        Vec2 {
            x: fixed_mul(self.x as int, rhs as int) as i32,
            y: fixed_mul(self.y as int, rhs as int) as i32,
        }
    }

    /// Every component of the scaled vector fits.
    pub open spec fn scale_fits(self, rhs: i32) -> bool {
        &&& fits(fixed_mul(self.x as int, rhs as int))
        &&& fits(fixed_mul(self.y as int, rhs as int))
    }

    /// Multiplies every component by the scalar `rhs`.
    pub fn mul(self, rhs: i32) -> (r: Vec2)
        requires
            self.scale_fits(rhs),
        ensures
            r == self.scale_spec(rhs),
    {
        Vec2 { x: multiply(self.x, rhs), y: multiply(self.y, rhs) }
    }

    /// The product, component by component.
    pub open spec fn product_spec(self, rhs: Vec2) -> Vec2 {
        Vec2 {
            x: fixed_mul(self.x as int, rhs.x as int) as i32,
            y: fixed_mul(self.y as int, rhs.y as int) as i32,
        }
    }

    /// Every component of the product fits.
    pub open spec fn product_fits(self, rhs: Vec2) -> bool {
        &&& fits(fixed_mul(self.x as int, rhs.x as int))
        &&& fits(fixed_mul(self.y as int, rhs.y as int))
    }

    /// Multiplies component by component.
    pub fn mul_each(self, rhs: Vec2) -> (r: Vec2)
        requires
            self.product_fits(rhs),
        ensures
            r == self.product_spec(rhs),
    {
        Vec2 { x: multiply(self.x, rhs.x), y: multiply(self.y, rhs.y) }
    }

    /// The point on the way to `end` at the fraction `num / den`, component
    /// by component.
    pub open spec fn lerp_spec(self, end: Vec2, num: int, den: int) -> Vec2 {
        Vec2 {
            x: lerp_spec(self.x as int, end.x as int, num, den) as i32,
            y: lerp_spec(self.y as int, end.y as int, num, den) as i32,
        }
    }

    /// Interpolates towards `end` at the fraction `alpha`.
    pub fn lerp(self, end: Vec2, alpha: Ratio) -> (r: Vec2)
        requires
            alpha.wf(),
        ensures
            r == self.lerp_spec(end, alpha.num as int, alpha.den as int),
    {
        Vec2 { x: lerp(self.x, end.x, alpha), y: lerp(self.y, end.y, alpha) }
    }
}

impl Vec3 {
    pub fn new(x: i32, y: i32, z: i32) -> (r: Vec3)
        ensures
            r == (Vec3 { x, y, z }),
    {
        Vec3 { x, y, z }
    }

    /// The homogeneous vector with this one in front and `w` behind.
    pub fn extend(self, w: i32) -> (r: Vec4)
        ensures
            r == (Vec4 { x: self.x, y: self.y, z: self.z, w }),
    {
        Vec4 { x: self.x, y: self.y, z: self.z, w }
    }

    /// The sum, component by component.
    pub open spec fn add_spec(self, rhs: Vec3) -> Vec3 {
        Vec3 {
            x: (self.x + rhs.x) as i32,
            y: (self.y + rhs.y) as i32,
            z: (self.z + rhs.z) as i32,
        }
    }

    /// Every component of the sum fits.
    pub open spec fn add_fits(self, rhs: Vec3) -> bool {
        &&& fits(self.x + rhs.x)
        &&& fits(self.y + rhs.y)
        &&& fits(self.z + rhs.z)
    }

    /// Adds component by component.
    pub fn add(self, rhs: Vec3) -> (r: Vec3)
        requires
            self.add_fits(rhs),
        ensures
            r == self.add_spec(rhs),
    {
        Vec3 { x: self.x + rhs.x, y: self.y + rhs.y, z: self.z + rhs.z }
    }

    /// The difference, component by component.
    pub open spec fn sub_spec(self, rhs: Vec3) -> Vec3 {
        Vec3 {
            x: (self.x - rhs.x) as i32,
            y: (self.y - rhs.y) as i32,
            z: (self.z - rhs.z) as i32,
        }
    }

    /// Every component of the difference fits.
    pub open spec fn sub_fits(self, rhs: Vec3) -> bool {
        &&& fits(self.x - rhs.x)
        &&& fits(self.y - rhs.y)
        &&& fits(self.z - rhs.z)
    }

    /// Subtracts component by component.
    pub fn sub(self, rhs: Vec3) -> (r: Vec3)
        requires
            self.sub_fits(rhs),
        ensures
            r == self.sub_spec(rhs),
    {
        Vec3 { x: self.x - rhs.x, y: self.y - rhs.y, z: self.z - rhs.z }
    }

    /// Every component multiplied by the scalar `rhs`.
    pub open spec fn scale_spec(self, rhs: i32) -> Vec3 {
        Vec3 {
            x: fixed_mul(self.x as int, rhs as int) as i32,
            y: fixed_mul(self.y as int, rhs as int) as i32,
            z: fixed_mul(self.z as int, rhs as int) as i32,
        }
    }

    /// Every component of the scaled vector fits.
    pub open spec fn scale_fits(self, rhs: i32) -> bool {
        &&& fits(fixed_mul(self.x as int, rhs as int))
        &&& fits(fixed_mul(self.y as int, rhs as int))
        &&& fits(fixed_mul(self.z as int, rhs as int))
    }

    /// Multiplies every component by the scalar `rhs`.
    pub fn mul(self, rhs: i32) -> (r: Vec3)
        requires
            self.scale_fits(rhs),
        ensures
            r == self.scale_spec(rhs),
    {
        Vec3 { x: multiply(self.x, rhs), y: multiply(self.y, rhs), z: multiply(self.z, rhs) }
    }

    /// The product, component by component.
    pub open spec fn product_spec(self, rhs: Vec3) -> Vec3 {
        Vec3 {
            x: fixed_mul(self.x as int, rhs.x as int) as i32,
            y: fixed_mul(self.y as int, rhs.y as int) as i32,
            z: fixed_mul(self.z as int, rhs.z as int) as i32,
        }
    }

    /// Every component of the product fits.
    pub open spec fn product_fits(self, rhs: Vec3) -> bool {
        &&& fits(fixed_mul(self.x as int, rhs.x as int))
        &&& fits(fixed_mul(self.y as int, rhs.y as int))
        &&& fits(fixed_mul(self.z as int, rhs.z as int))
    }

    /// Multiplies component by component.
    pub fn mul_each(self, rhs: Vec3) -> (r: Vec3)
        requires
            self.product_fits(rhs),
        ensures
            r == self.product_spec(rhs),
    {
        Vec3 {
            x: multiply(self.x, rhs.x),
            y: multiply(self.y, rhs.y),
            z: multiply(self.z, rhs.z),
        }
    }

    /// The point on the way to `end` at the fraction `num / den`, component
    /// by component.
    pub open spec fn lerp_spec(self, end: Vec3, num: int, den: int) -> Vec3 {
        Vec3 {
            x: lerp_spec(self.x as int, end.x as int, num, den) as i32,
            y: lerp_spec(self.y as int, end.y as int, num, den) as i32,
            z: lerp_spec(self.z as int, end.z as int, num, den) as i32,
        }
    }

    /// Interpolates towards `end` at the fraction `alpha`.
    pub fn lerp(self, end: Vec3, alpha: Ratio) -> (r: Vec3)
        requires
            alpha.wf(),
        ensures
            r == self.lerp_spec(end, alpha.num as int, alpha.den as int),
    {
        Vec3 {
            x: lerp(self.x, end.x, alpha),
            y: lerp(self.y, end.y, alpha),
            z: lerp(self.z, end.z, alpha),
        }
    }
}

impl Vec4 {
    pub fn new(x: i32, y: i32, z: i32, w: i32) -> (r: Vec4)
        ensures
            r == (Vec4 { x, y, z, w }),
    {
        Vec4 { x, y, z, w }
    }

    /// The first three components.
    pub fn xyz(self) -> (r: Vec3)
        ensures
            r == (Vec3 { x: self.x, y: self.y, z: self.z }),
    {
        Vec3 { x: self.x, y: self.y, z: self.z }
    }

    /// The first two components.
    pub open spec fn xy_spec(self) -> Vec2 {
        Vec2 { x: self.x, y: self.y }
    }

    /// The first two components.
    pub fn xy(self) -> (r: Vec2)
        ensures
            r == self.xy_spec(),
    {
        Vec2 { x: self.x, y: self.y }
    }

    /// The sum, component by component.
    pub open spec fn add_spec(self, rhs: Vec4) -> Vec4 {
        Vec4 {
            x: (self.x + rhs.x) as i32,
            y: (self.y + rhs.y) as i32,
            z: (self.z + rhs.z) as i32,
            w: (self.w + rhs.w) as i32,
        }
    }

    /// Every component of the sum fits.
    pub open spec fn add_fits(self, rhs: Vec4) -> bool {
        &&& fits(self.x + rhs.x)
        &&& fits(self.y + rhs.y)
        &&& fits(self.z + rhs.z)
        &&& fits(self.w + rhs.w)
    }

    /// Adds component by component.
    pub fn add(self, rhs: Vec4) -> (r: Vec4)
        requires
            self.add_fits(rhs),
        ensures
            r == self.add_spec(rhs),
    {
        Vec4 { x: self.x + rhs.x, y: self.y + rhs.y, z: self.z + rhs.z, w: self.w + rhs.w }
    }

    /// The difference, component by component.
    pub open spec fn sub_spec(self, rhs: Vec4) -> Vec4 {
        Vec4 {
            x: (self.x - rhs.x) as i32,
            y: (self.y - rhs.y) as i32,
            z: (self.z - rhs.z) as i32,
            w: (self.w - rhs.w) as i32,
        }
    }

    /// Every component of the difference fits.
    pub open spec fn sub_fits(self, rhs: Vec4) -> bool {
        &&& fits(self.x - rhs.x)
        &&& fits(self.y - rhs.y)
        &&& fits(self.z - rhs.z)
        &&& fits(self.w - rhs.w)
    }

    /// Subtracts component by component.
    pub fn sub(self, rhs: Vec4) -> (r: Vec4)
        requires
            self.sub_fits(rhs),
        ensures
            r == self.sub_spec(rhs),
    {
        Vec4 { x: self.x - rhs.x, y: self.y - rhs.y, z: self.z - rhs.z, w: self.w - rhs.w }
    }

    /// Every component multiplied by the scalar `rhs`.
    pub open spec fn scale_spec(self, rhs: i32) -> Vec4 {
        Vec4 {
            x: fixed_mul(self.x as int, rhs as int) as i32,
            y: fixed_mul(self.y as int, rhs as int) as i32,
            z: fixed_mul(self.z as int, rhs as int) as i32,
            w: fixed_mul(self.w as int, rhs as int) as i32,
        }
    }

    /// Every component of the scaled vector fits.
    pub open spec fn scale_fits(self, rhs: i32) -> bool {
        &&& fits(fixed_mul(self.x as int, rhs as int))
        &&& fits(fixed_mul(self.y as int, rhs as int))
        &&& fits(fixed_mul(self.z as int, rhs as int))
        &&& fits(fixed_mul(self.w as int, rhs as int))
    }

    /// Multiplies every component by the scalar `rhs`.
    pub fn mul(self, rhs: i32) -> (r: Vec4)
        requires
            self.scale_fits(rhs),
        ensures
            r == self.scale_spec(rhs),
    {
        Vec4 {
            x: multiply(self.x, rhs),
            y: multiply(self.y, rhs),
            z: multiply(self.z, rhs),
            w: multiply(self.w, rhs),
        }
    }

    /// The product, component by component.
    pub open spec fn product_spec(self, rhs: Vec4) -> Vec4 {
        Vec4 {
            x: fixed_mul(self.x as int, rhs.x as int) as i32,
            y: fixed_mul(self.y as int, rhs.y as int) as i32,
            z: fixed_mul(self.z as int, rhs.z as int) as i32,
            w: fixed_mul(self.w as int, rhs.w as int) as i32,
        }
    }

    /// Every component of the product fits.
    pub open spec fn product_fits(self, rhs: Vec4) -> bool {
        &&& fits(fixed_mul(self.x as int, rhs.x as int))
        &&& fits(fixed_mul(self.y as int, rhs.y as int))
        &&& fits(fixed_mul(self.z as int, rhs.z as int))
        &&& fits(fixed_mul(self.w as int, rhs.w as int))
    }

    /// Multiplies component by component.
    pub fn mul_each(self, rhs: Vec4) -> (r: Vec4)
        requires
            self.product_fits(rhs),
        ensures
            r == self.product_spec(rhs),
    {
        Vec4 {
            x: multiply(self.x, rhs.x),
            y: multiply(self.y, rhs.y),
            z: multiply(self.z, rhs.z),
            w: multiply(self.w, rhs.w),
        }
    }

    /// The point on the way to `end` at the fraction `num / den`, component
    /// by component.
    pub open spec fn lerp_spec(self, end: Vec4, num: int, den: int) -> Vec4 {
        Vec4 {
            x: lerp_spec(self.x as int, end.x as int, num, den) as i32,
            y: lerp_spec(self.y as int, end.y as int, num, den) as i32,
            z: lerp_spec(self.z as int, end.z as int, num, den) as i32,
            w: lerp_spec(self.w as int, end.w as int, num, den) as i32,
        }
    }

    /// Interpolates towards `end` at the fraction `alpha`.
    pub fn lerp(self, end: Vec4, alpha: Ratio) -> (r: Vec4)
        requires
            alpha.wf(),
        ensures
            r == self.lerp_spec(end, alpha.num as int, alpha.den as int),
    {
        Vec4 {
            x: lerp(self.x, end.x, alpha),
            y: lerp(self.y, end.y, alpha),
            z: lerp(self.z, end.z, alpha),
            w: lerp(self.w, end.w, alpha),
        }
    }
}

impl UVec3 {
    pub fn new(x: u32, y: u32, z: u32) -> (r: UVec3)
        ensures
            r == (UVec3 { x, y, z }),
    {
        UVec3 { x, y, z }
    }
}

} // verus!
