//! Vertices and triangles, back-face and frustum culling, and clipping against
//! the near plane.
use vstd::prelude::*;
use std::sync::Arc;
use crate::fixed::Ratio;
use crate::matrix::Mat4;
use crate::texture::Texture;
use crate::utils::{lemma_lerp_between, lemma_lerp_reaches_zero, lemma_mul_bound};
use crate::vector::{Vec2, Vec3, Vec4};

verus! {

/// One corner of a triangle: a homogeneous position and the attributes that
/// are interpolated across the triangle.
#[derive(Debug, Copy, Clone, PartialEq, Eq, Structural)]
pub struct Vertex {
    /// Where the corner is: `x`, `y`, `z` and the homogeneous `w`.
    pub position: Vec4,
    /// The direction in which the surface faces.
    pub normal: Vec3,
    /// Red, green, blue and alpha, each from zero to one.
    pub color: Vec4,
    /// The place in the texture, where one is the texture's whole width or height.
    pub uv: Vec2,
}

impl Vertex {
    pub fn new(position: Vec4, normal: Vec3, color: Vec4, uv: Vec2) -> (r: Vertex)
        ensures
            r == (Vertex { position, normal, color, uv }),
    {
        Vertex { position, normal, color, uv }
    }

    /// The sum, attribute by attribute.
    pub open spec fn add_spec(self, rhs: Vertex) -> Vertex {
        Vertex {
            position: self.position.add_spec(rhs.position),
            normal: self.normal.add_spec(rhs.normal),
            color: self.color.add_spec(rhs.color),
            uv: self.uv.add_spec(rhs.uv),
        }
    }

    /// Every component of the sum fits.
    pub open spec fn add_fits(self, rhs: Vertex) -> bool {
        &&& self.position.add_fits(rhs.position)
        &&& self.normal.add_fits(rhs.normal)
        &&& self.color.add_fits(rhs.color)
        &&& self.uv.add_fits(rhs.uv)
    }

    /// Adds attribute by attribute.
    pub fn add(self, rhs: Vertex) -> (r: Vertex)
        requires
            self.add_fits(rhs),
        ensures
            r == self.add_spec(rhs),
    {
        Vertex {
            position: self.position.add(rhs.position),
            normal: self.normal.add(rhs.normal),
            color: self.color.add(rhs.color),
            uv: self.uv.add(rhs.uv),
        }
    }

    /// The difference, attribute by attribute.
    pub open spec fn sub_spec(self, rhs: Vertex) -> Vertex {
        Vertex {
            position: self.position.sub_spec(rhs.position),
            normal: self.normal.sub_spec(rhs.normal),
            color: self.color.sub_spec(rhs.color),
            uv: self.uv.sub_spec(rhs.uv),
        }
    }

    /// Every component of the difference fits.
    pub open spec fn sub_fits(self, rhs: Vertex) -> bool {
        &&& self.position.sub_fits(rhs.position)
        &&& self.normal.sub_fits(rhs.normal)
        &&& self.color.sub_fits(rhs.color)
        &&& self.uv.sub_fits(rhs.uv)
    }

    /// Subtracts attribute by attribute.
    pub fn sub(self, rhs: Vertex) -> (r: Vertex)
        requires
            self.sub_fits(rhs),
        ensures
            r == self.sub_spec(rhs),
    {
        Vertex {
            position: self.position.sub(rhs.position),
            normal: self.normal.sub(rhs.normal),
            color: self.color.sub(rhs.color),
            uv: self.uv.sub(rhs.uv),
        }
    }

    /// Every attribute multiplied by the scalar `rhs`.
    pub open spec fn scale_spec(self, rhs: i32) -> Vertex {
        Vertex {
            position: self.position.scale_spec(rhs),
            normal: self.normal.scale_spec(rhs),
            color: self.color.scale_spec(rhs),
            uv: self.uv.scale_spec(rhs),
        }
    }

    /// Every component of the scaled vertex fits.
    pub open spec fn scale_fits(self, rhs: i32) -> bool {
        &&& self.position.scale_fits(rhs)
        &&& self.normal.scale_fits(rhs)
        &&& self.color.scale_fits(rhs)
        &&& self.uv.scale_fits(rhs)
    }

    /// Multiplies every attribute by the scalar `rhs`.
    pub fn mul(self, rhs: i32) -> (r: Vertex)
        requires
            self.scale_fits(rhs),
        ensures
            r == self.scale_spec(rhs),
    {
        Vertex {
            position: self.position.mul(rhs),
            normal: self.normal.mul(rhs),
            color: self.color.mul(rhs),
            uv: self.uv.mul(rhs),
        }
    }

    /// Multiplies every attribute by the scalar `rhs`, in place.
    pub fn mul_assign(&mut self, rhs: i32)
        requires
            old(self).scale_fits(rhs),
        ensures
            *final(self) == old(self).scale_spec(rhs),
    {
        *self = self.mul(rhs);
    }

    /// The product, component by component.
    pub open spec fn product_spec(self, rhs: Vertex) -> Vertex {
        Vertex {
            position: self.position.product_spec(rhs.position),
            normal: self.normal.product_spec(rhs.normal),
            color: self.color.product_spec(rhs.color),
            uv: self.uv.product_spec(rhs.uv),
        }
    }

    /// Every component of the product fits.
    pub open spec fn product_fits(self, rhs: Vertex) -> bool {
        &&& self.position.product_fits(rhs.position)
        &&& self.normal.product_fits(rhs.normal)
        &&& self.color.product_fits(rhs.color)
        &&& self.uv.product_fits(rhs.uv)
    }

    /// Multiplies component by component.
    pub fn mul_each(self, rhs: Vertex) -> (r: Vertex)
        requires
            self.product_fits(rhs),
        ensures
            r == self.product_spec(rhs),
    {
        Vertex {
            position: self.position.mul_each(rhs.position),
            normal: self.normal.mul_each(rhs.normal),
            color: self.color.mul_each(rhs.color),
            uv: self.uv.mul_each(rhs.uv),
        }
    }

    /// The vertex on the way to `end` at the fraction `num / den`: every
    /// attribute is interpolated at that same fraction.
    pub open spec fn lerp_spec(self, end: Vertex, num: int, den: int) -> Vertex {
        Vertex {
            position: self.position.lerp_spec(end.position, num, den),
            normal: self.normal.lerp_spec(end.normal, num, den),
            color: self.color.lerp_spec(end.color, num, den),
            uv: self.uv.lerp_spec(end.uv, num, den),
        }
    }

    /// Interpolates towards `end` at the fraction `alpha`.
    pub fn lerp(self, end: Vertex, alpha: Ratio) -> (r: Vertex)
        requires
            alpha.wf(),
        ensures
            r == self.lerp_spec(end, alpha.num as int, alpha.den as int),
    {
        Vertex {
            position: self.position.lerp(end.position, alpha),
            normal: self.normal.lerp(end.normal, alpha),
            color: self.color.lerp(end.color, alpha),
            uv: self.uv.lerp(end.uv, alpha),
        }
    }
}

/// Three vertices and the texture they share, if any.
#[derive(Debug, Clone, PartialEq, Eq)]
pub struct Triangle {
    pub vertices: [Vertex; 3],
    pub texture: Option<Arc<Texture>>,
}

/// An order in which to take the three vertices `A`, `B`, `C` of a triangle.
#[derive(Debug, Copy, Clone, PartialEq, Eq, Structural)]
pub enum VerticesOrder {
    ABC,
    ACB,
    BAC,
    BCA,
    CAB,
    CBA,
}

impl VerticesOrder {
    /// The positions from which the first, second and third vertex are taken.
    pub open spec fn indices(self) -> (int, int, int) {
        match self {
            VerticesOrder::ABC => (0, 1, 2),
            VerticesOrder::ACB => (0, 2, 1),
            VerticesOrder::BAC => (1, 0, 2),
            VerticesOrder::BCA => (1, 2, 0),
            VerticesOrder::CAB => (2, 0, 1),
            VerticesOrder::CBA => (2, 1, 0),
        }
    }
}

/// What culling and clipping leave of a triangle.
#[derive(Debug, PartialEq, Eq)]
pub enum ClipResult {
    Empty,
    One(Triangle),
    Two((Triangle, Triangle)),
}

impl Triangle {
    pub fn new(vertices: [Vertex; 3]) -> (r: Triangle)
        ensures
            r == (Triangle { vertices, texture: None }),
    {
        Triangle { vertices, texture: None }
    }

    pub fn new_with_texture(vertices: [Vertex; 3], texture: Arc<Texture>) -> (r: Triangle)
        ensures
            r == (Triangle { vertices, texture: Some(texture) }),
    {
        Triangle { vertices, texture: Some(texture) }
    }

    /// The same triangle with its vertices taken in the given order.
    pub open spec fn reorder_spec(self, order: VerticesOrder) -> Triangle {
        let (i, j, k) = order.indices();
        Triangle {
            vertices: [self.vertices[i], self.vertices[j], self.vertices[k]],
            texture: self.texture,
        }
    }

    /// Another handle to the shared texture, if there is one.
    pub fn shared_texture(&self) -> (r: Option<Arc<Texture>>)
        ensures
            r == self.texture,
    {
        match &self.texture {
            Some(texture) => Some(texture.clone()),
            None => None,
        }
    }

    /// The same triangle, sharing the texture.
    pub fn duplicate(&self) -> (r: Triangle)
        ensures
            r == *self,
    {
        Triangle { vertices: self.vertices, texture: self.shared_texture() }
    }

    /// The triangle with its vertices taken in the given order.
    pub fn reorder(&self, order: VerticesOrder) -> (r: Triangle)
        ensures
            r == self.reorder_spec(order),
    {
        let a = self.vertices[0];
        let b = self.vertices[1];
        let c = self.vertices[2];
        let vertices = match order {
            VerticesOrder::ABC => [a, b, c],
            VerticesOrder::ACB => [a, c, b],
            VerticesOrder::BAC => [b, a, c],
            VerticesOrder::BCA => [b, c, a],
            VerticesOrder::CAB => [c, a, b],
            VerticesOrder::CBA => [c, b, a],
        };
        Triangle { vertices, texture: self.shared_texture() }
    }

    /// The triangle with each position, taken as a point, multiplied by the
    /// matrix; nothing where a transformed coordinate does not fit.
    pub open spec fn transform_spec(self, matrix: Mat4) -> Option<Triangle> {
        let v0 = self.vertices[0];
        let v1 = self.vertices[1];
        let v2 = self.vertices[2];
        match (
            matrix.mul_vec4_spec(Vec4 { w: 65536, ..v0.position }),
            matrix.mul_vec4_spec(Vec4 { w: 65536, ..v1.position }),
            matrix.mul_vec4_spec(Vec4 { w: 65536, ..v2.position }),
        ) {
            (Some(p0), Some(p1), Some(p2)) => Some(
                (Triangle {
                    vertices: [
                        Vertex { position: p0, ..v0 },
                        Vertex { position: p1, ..v1 },
                        Vertex { position: p2, ..v2 },
                    ],
                    texture: self.texture,
                }),
            ),
            _ => None,
        }
    }

    /// Transforms the positions of the triangle by the matrix.
    pub fn transform(&self, matrix: &Mat4) -> (r: Option<Triangle>)
        ensures
            r == self.transform_spec(*matrix),
    {
        let v0 = self.vertices[0];
        let v1 = self.vertices[1];
        let v2 = self.vertices[2];
        let p0 = match matrix.mul_vec4(v0.position.xyz().extend(65536)) {
            Some(p) => p,
            None => { return None; },
        };
        let p1 = match matrix.mul_vec4(v1.position.xyz().extend(65536)) {
            Some(p) => p,
            None => { return None; },
        };
        let p2 = match matrix.mul_vec4(v2.position.xyz().extend(65536)) {
            Some(p) => p,
            None => { return None; },
        };
        Some(
            Triangle {
                vertices: [
                    Vertex { position: p0, normal: v0.normal, color: v0.color, uv: v0.uv },
                    Vertex { position: p1, normal: v1.normal, color: v1.color, uv: v1.uv },
                    Vertex { position: p2, normal: v2.normal, color: v2.color, uv: v2.uv },
                ],
                texture: self.shared_texture(),
            },
        )
    }

    /// The doubled signed area of the triangle's projection on the `x`-`y`
    /// plane: positive where the vertices run counter-clockwise.
    pub open spec fn winding(self) -> int {
        let v0 = self.vertices[0].position;
        let v1 = self.vertices[1].position;
        let v2 = self.vertices[2].position;
        (v1.x - v0.x) * (v2.y - v0.y) - (v1.y - v0.y) * (v2.x - v0.x)
    }

    /// All three vertices satisfy `outside`.
    pub open spec fn all_vertices(self, outside: spec_fn(Vec4) -> bool) -> bool {
        &&& outside(self.vertices[0].position)
        &&& outside(self.vertices[1].position)
        &&& outside(self.vertices[2].position)
    }

    /// One of the six half-spaces outside the view volume holds all three
    /// vertices.
    pub open spec fn outside_frustum(self) -> bool {
        ||| self.all_vertices(|p: Vec4| p.x > p.w)
        ||| self.all_vertices(|p: Vec4| p.x < -p.w)
        ||| self.all_vertices(|p: Vec4| p.y > p.w)
        ||| self.all_vertices(|p: Vec4| p.y < -p.w)
        ||| self.all_vertices(|p: Vec4| p.z > p.w)
        ||| self.all_vertices(|p: Vec4| p.z < 0)
    }

    /// No vertex lies behind the near plane.
    pub open spec fn in_front(self) -> bool {
        &&& self.vertices[0].position.z >= 0
        &&& self.vertices[1].position.z >= 0
        &&& self.vertices[2].position.z >= 0
    }

    /// How many vertices lie behind the near plane.
    pub open spec fn behind_count(self) -> int {
        (if self.vertices[0].position.z < 0 {
            1int
        } else {
            0
        }) + (if self.vertices[1].position.z < 0 {
            1int
        } else {
            0
        }) + (if self.vertices[2].position.z < 0 {
            1int
        } else {
            0
        })
    }
}

/// The triangle faces away from the viewer, or is seen edge-on.
pub fn cull_triangle_backface(triangle: &Triangle) -> (r: bool)
    ensures
        r == (triangle.winding() <= 0),
{
    let v0 = triangle.vertices[0].position;
    let v1 = triangle.vertices[1].position;
    let v2 = triangle.vertices[2].position;
    let ax: i128 = v1.x as i128 - v0.x as i128;
    let ay: i128 = v1.y as i128 - v0.y as i128;
    let bx: i128 = v2.x as i128 - v0.x as i128;
    let by: i128 = v2.y as i128 - v0.y as i128;
    proof {
        lemma_mul_bound(ax as int, by as int, 0x1_0000_0000, 0x1_0000_0000);
        lemma_mul_bound(ay as int, bx as int, 0x1_0000_0000, 0x1_0000_0000);
    }
    ax * by - ay * bx <= 0
}

/// The triangle lies wholly outside one of the six planes of the view volume.
pub fn cull_triangle_view_frustum(triangle: &Triangle) -> (r: bool)
    ensures
        r == triangle.outside_frustum(),
{
    let p0 = triangle.vertices[0].position;
    let p1 = triangle.vertices[1].position;
    let p2 = triangle.vertices[2].position;
    if p0.x > p0.w && p1.x > p1.w && p2.x > p2.w {
        return true;
    }
    if (p0.x as i64) < -(p0.w as i64) && (p1.x as i64) < -(p1.w as i64) && (p2.x as i64) < -(
    p2.w as i64) {
        return true;
    }
    if p0.y > p0.w && p1.y > p1.w && p2.y > p2.w {
        return true;
    }
    if (p0.y as i64) < -(p0.w as i64) && (p1.y as i64) < -(p1.w as i64) && (p2.y as i64) < -(
    p2.w as i64) {
        return true;
    }
    if p0.z > p0.w && p1.z > p1.w && p2.z > p2.w {
        return true;
    }
    if p0.z < 0 && p1.z < 0 && p2.z < 0 {
        return true;
    }
    false
}

/// The two ends of an edge lie on different sides of the near plane.
pub open spec fn crosses_near_plane(a: Vertex, b: Vertex) -> bool {
    ||| a.position.z < 0 <= b.position.z
    ||| b.position.z < 0 <= a.position.z
}

/// The fraction of the way from `a` to `b` at which the edge meets the near
/// plane: `-a.z / (b.z - a.z)`, written with a positive denominator.
pub open spec fn crossing(a: Vertex, b: Vertex) -> Ratio {
    if a.position.z < b.position.z {
        Ratio { num: (-a.position.z) as i64, den: (b.position.z - a.position.z) as i64 }
    } else {
        Ratio { num: a.position.z as i64, den: (a.position.z - b.position.z) as i64 }
    }
}

/// The vertex in which the edge from `a` to `b` meets the near plane.
pub open spec fn cut_spec(a: Vertex, b: Vertex) -> Vertex {
    a.lerp_spec(b, crossing(a, b).num as int, crossing(a, b).den as int)
}

/// Computes [`cut_spec`].
pub fn cut(a: Vertex, b: Vertex) -> (r: Vertex)
    requires
        crosses_near_plane(a, b),
    ensures
        r == cut_spec(a, b),
{
    let alpha = if a.position.z < b.position.z {
        Ratio { num: -(a.position.z as i64), den: b.position.z as i64 - a.position.z as i64 }
    } else {
        Ratio { num: a.position.z as i64, den: a.position.z as i64 - b.position.z as i64 }
    };
    a.lerp(b, alpha)
}

/// What is left of a triangle whose first vertex alone lies behind the near
/// plane: the corner is cut off, and the remaining quadrilateral is split in two.
pub open spec fn clip_two_spec(t: Triangle) -> (Triangle, Triangle) {
    let v0a = cut_spec(t.vertices[0], t.vertices[1]);
    let v0b = cut_spec(t.vertices[0], t.vertices[2]);
    (
        Triangle { vertices: [v0a, t.vertices[1], t.vertices[2]], texture: t.texture },
        Triangle { vertices: [v0a, v0b, t.vertices[2]], texture: t.texture },
    )
}

/// What is left of a triangle whose first vertex alone lies in front of the
/// near plane: that corner, up to the plane.
pub open spec fn clip_one_spec(t: Triangle) -> Triangle {
    Triangle {
        vertices: [
            t.vertices[0],
            cut_spec(t.vertices[0], t.vertices[1]),
            cut_spec(t.vertices[0], t.vertices[2]),
        ],
        texture: t.texture,
    }
}

/// Clips a triangle whose first vertex alone lies behind the near plane.
pub fn clip_triangle_two(triangle: &Triangle) -> (r: (Triangle, Triangle))
    requires
        triangle.vertices[0].position.z < 0,
        triangle.vertices[1].position.z >= 0,
        triangle.vertices[2].position.z >= 0,
    ensures
        r == clip_two_spec(*triangle),
{
    let v0_a = cut(triangle.vertices[0], triangle.vertices[1]);
    let v0_b = cut(triangle.vertices[0], triangle.vertices[2]);
    let result_a = Triangle {
        vertices: [v0_a, triangle.vertices[1], triangle.vertices[2]],
        texture: triangle.shared_texture(),
    };
    let result_b = Triangle {
        vertices: [v0_a, v0_b, triangle.vertices[2]],
        texture: triangle.shared_texture(),
    };
    (result_a, result_b)
}

/// Clips a triangle whose first vertex alone lies in front of the near plane.
pub fn clip_triangle_one(triangle: &Triangle) -> (r: Triangle)
    requires
        triangle.vertices[0].position.z >= 0,
        triangle.vertices[1].position.z < 0,
        triangle.vertices[2].position.z < 0,
    ensures
        r == clip_one_spec(*triangle),
{
    let v1 = cut(triangle.vertices[0], triangle.vertices[1]);
    let v2 = cut(triangle.vertices[0], triangle.vertices[2]);
    Triangle { vertices: [triangle.vertices[0], v1, v2], texture: triangle.shared_texture() }
}

/// The order that takes the odd vertex to the front: given which of the three
/// vertices lie behind the near plane, the one behind it where one does, the
/// one in front of it where two lie behind.
pub open spec fn clip_order(behind: (bool, bool, bool)) -> VerticesOrder {
    match behind {
        (true, false, false) => VerticesOrder::ACB,
        (false, true, false) => VerticesOrder::BAC,
        (false, false, true) => VerticesOrder::CBA,
        (true, true, false) => VerticesOrder::CAB,
        (true, false, true) => VerticesOrder::BAC,
        (false, true, true) => VerticesOrder::ABC,
        _ => VerticesOrder::ABC,
    }
}

/// The part of a triangle in front of the near plane, by how many of its
/// vertices lie behind it: the whole triangle for none, nothing for all
/// three, and for one or two what clipping leaves of the triangle with its
/// odd vertex taken to the front.
pub open spec fn near_clip_spec(t: Triangle) -> ClipResult {
    let behind = (
        t.vertices[0].position.z < 0,
        t.vertices[1].position.z < 0,
        t.vertices[2].position.z < 0,
    );
    let ordered = t.reorder_spec(clip_order(behind));
    if t.behind_count() == 0 {
        ClipResult::One(t)
    } else if t.behind_count() == 1 {
        ClipResult::Two(clip_two_spec(ordered))
    } else if t.behind_count() == 2 {
        ClipResult::One(clip_one_spec(ordered))
    } else {
        ClipResult::Empty
    }
}

/// What culling and near-plane clipping leave of a triangle in clip space.
pub open spec fn clip_cull_spec(t: Triangle) -> ClipResult {
    if t.winding() <= 0 || t.outside_frustum() {
        ClipResult::Empty
    } else {
        near_clip_spec(t)
    }
}

/// Computes [`clip_order`].
pub fn order_for_clipping(behind: (bool, bool, bool)) -> (r: VerticesOrder)
    ensures
        r == clip_order(behind),
{
    match behind {
        (true, false, false) => VerticesOrder::ACB,
        (false, true, false) => VerticesOrder::BAC,
        (false, false, true) => VerticesOrder::CBA,
        (true, true, false) => VerticesOrder::CAB,
        (true, false, true) => VerticesOrder::BAC,
        (false, true, true) => VerticesOrder::ABC,
        _ => VerticesOrder::ABC,
    }
}

/// Clips a triangle against the near plane.
pub fn clip_triangle_near(triangle: &Triangle) -> (r: ClipResult)
    ensures
        r == near_clip_spec(*triangle),
{
    let behind = (
        triangle.vertices[0].position.z < 0,
        triangle.vertices[1].position.z < 0,
        triangle.vertices[2].position.z < 0,
    );
    match behind {
        // all in front, or all behind: nothing is interpolated
        (false, false, false) => ClipResult::One(triangle.duplicate()),
        (true, true, true) => ClipResult::Empty,
        _ => {
            let ordered = triangle.reorder(order_for_clipping(behind));
            if ordered.vertices[0].position.z < 0 {
                ClipResult::Two(clip_triangle_two(&ordered))
            } else {
                ClipResult::One(clip_triangle_one(&ordered))
            }
        },
    }
}

/// Culls a triangle in clip space that faces away or lies outside the view
/// volume, and clips what remains against the near plane.
pub fn clip_cull_triangle(triangle: &Triangle) -> (r: ClipResult)
    ensures
        r == clip_cull_spec(*triangle),
{
    if cull_triangle_backface(triangle) {
        return ClipResult::Empty;
    }
    if cull_triangle_view_frustum(triangle) {
        ClipResult::Empty
    } else {
        clip_triangle_near(triangle)
    }
}

/// The vertex in which an edge meets the near plane lies on that plane.
pub proof fn lemma_cut_on_near_plane(a: Vertex, b: Vertex)
    requires
        crosses_near_plane(a, b),
    ensures
        cut_spec(a, b).position.z == 0,
{
    lemma_lerp_reaches_zero(a.position.z as int, b.position.z as int);
}

/// `x` lies between `a` and `b`, whichever of the two is the larger.
pub open spec fn between(a: int, b: int, x: int) -> bool {
    (a <= x <= b) || (b <= x <= a)
}

/// The vertex in which an edge meets the near plane lies on the edge: each
/// of its coordinates and attributes lies between those of the two ends.
pub proof fn lemma_cut_between_ends(a: Vertex, b: Vertex)
    requires
        crosses_near_plane(a, b),
    ensures
        ({
            let c = cut_spec(a, b);
            &&& between(a.position.x as int, b.position.x as int, c.position.x as int)
            &&& between(a.position.y as int, b.position.y as int, c.position.y as int)
            &&& between(a.position.z as int, b.position.z as int, c.position.z as int)
            &&& between(a.position.w as int, b.position.w as int, c.position.w as int)
            &&& between(a.normal.x as int, b.normal.x as int, c.normal.x as int)
            &&& between(a.normal.y as int, b.normal.y as int, c.normal.y as int)
            &&& between(a.normal.z as int, b.normal.z as int, c.normal.z as int)
            &&& between(a.color.x as int, b.color.x as int, c.color.x as int)
            &&& between(a.color.y as int, b.color.y as int, c.color.y as int)
            &&& between(a.color.z as int, b.color.z as int, c.color.z as int)
            &&& between(a.color.w as int, b.color.w as int, c.color.w as int)
            &&& between(a.uv.x as int, b.uv.x as int, c.uv.x as int)
            &&& between(a.uv.y as int, b.uv.y as int, c.uv.y as int)
        }),
{
    let num = crossing(a, b).num as int;
    let den = crossing(a, b).den as int;
    lemma_lerp_between(a.position.x as int, b.position.x as int, num, den);
    lemma_lerp_between(a.position.y as int, b.position.y as int, num, den);
    lemma_lerp_between(a.position.z as int, b.position.z as int, num, den);
    lemma_lerp_between(a.position.w as int, b.position.w as int, num, den);
    lemma_lerp_between(a.normal.x as int, b.normal.x as int, num, den);
    lemma_lerp_between(a.normal.y as int, b.normal.y as int, num, den);
    lemma_lerp_between(a.normal.z as int, b.normal.z as int, num, den);
    lemma_lerp_between(a.color.x as int, b.color.x as int, num, den);
    lemma_lerp_between(a.color.y as int, b.color.y as int, num, den);
    lemma_lerp_between(a.color.z as int, b.color.z as int, num, den);
    lemma_lerp_between(a.color.w as int, b.color.w as int, num, den);
    lemma_lerp_between(a.uv.x as int, b.uv.x as int, num, den);
    lemma_lerp_between(a.uv.y as int, b.uv.y as int, num, den);
}

/// A triangle with no vertex behind the near plane passes clipping unchanged;
/// so it passes culling and clipping unchanged where it faces the viewer and
/// is not outside the view volume.
pub proof fn lemma_clip_keeps_front_triangle(t: Triangle)
    requires
        t.behind_count() == 0,
    ensures
        near_clip_spec(t) == ClipResult::One(t),
        t.winding() > 0 && !t.outside_frustum() ==> clip_cull_spec(t) == ClipResult::One(t),
{
}

/// A triangle with exactly one vertex behind the near plane is clipped to two
/// triangles. Their new vertices lie on the near plane, and the two vertices in
/// front of it appear among them unchanged.
pub proof fn lemma_clip_one_behind(t: Triangle)
    requires
        t.behind_count() == 1,
    ensures
        near_clip_spec(t) matches ClipResult::Two((first, second)) && {
            &&& first.vertices[0].position.z == 0
            &&& second.vertices[0] == first.vertices[0]
            &&& second.vertices[1].position.z == 0
            &&& second.vertices[2] == first.vertices[2]
            &&& first.texture == t.texture
            &&& second.texture == t.texture
            &&& first.vertices[1].position.z >= 0
            &&& first.vertices[2].position.z >= 0
            &&& forall|i: int|
                0 <= i < 3 && (#[trigger] t.vertices[i]).position.z >= 0 ==> first.vertices[1]
                    == t.vertices[i] || first.vertices[2] == t.vertices[i]
        },
        t.winding() > 0 && !t.outside_frustum() ==> clip_cull_spec(t) == near_clip_spec(t),
{
    let order = clip_order(
        (
            t.vertices[0].position.z < 0,
            t.vertices[1].position.z < 0,
            t.vertices[2].position.z < 0,
        ),
    );
    let s = t.reorder_spec(order);
    lemma_cut_on_near_plane(s.vertices[0], s.vertices[1]);
    lemma_cut_on_near_plane(s.vertices[0], s.vertices[2]);
    let (first, second) = clip_two_spec(s);
    assert(near_clip_spec(t) == ClipResult::Two((first, second)));
    let (i0, i1, i2) = order.indices();
    assert(first.vertices[1] == t.vertices[i1]);
    assert(first.vertices[2] == t.vertices[i2]);
}

/// A triangle with exactly two vertices behind the near plane is clipped to
/// one triangle: the vertex in front of the plane, unchanged, and two new
/// vertices on the plane.
pub proof fn lemma_clip_two_behind(t: Triangle)
    requires
        t.behind_count() == 2,
    ensures
        near_clip_spec(t) matches ClipResult::One(clipped) && {
            &&& clipped.vertices[0].position.z >= 0
            &&& exists|i: int| 0 <= i < 3 && clipped.vertices[0] == #[trigger] t.vertices[i]
            &&& clipped.vertices[1].position.z == 0
            &&& clipped.vertices[2].position.z == 0
            &&& clipped.texture == t.texture
        },
        t.winding() > 0 && !t.outside_frustum() ==> clip_cull_spec(t) == near_clip_spec(t),
{
    let order = clip_order(
        (
            t.vertices[0].position.z < 0,
            t.vertices[1].position.z < 0,
            t.vertices[2].position.z < 0,
        ),
    );
    let s = t.reorder_spec(order);
    lemma_cut_on_near_plane(s.vertices[0], s.vertices[1]);
    lemma_cut_on_near_plane(s.vertices[0], s.vertices[2]);
    let clipped = clip_one_spec(s);
    assert(near_clip_spec(t) == ClipResult::One(clipped));
    let (i0, i1, i2) = order.indices();
    assert(clipped.vertices[0] == t.vertices[i0]);
}

/// A triangle wholly behind the near plane leaves nothing.
pub proof fn lemma_clip_all_behind(t: Triangle)
    requires
        t.behind_count() == 3,
    ensures
        near_clip_spec(t) == ClipResult::Empty,
        clip_cull_spec(t) == ClipResult::Empty,
{
}

/// Whatever clipping leaves of a triangle lies in front of the near plane.
pub proof fn lemma_clipped_lies_in_front(t: Triangle)
    ensures
        match near_clip_spec(t) {
            ClipResult::Empty => true,
            ClipResult::One(clipped) => clipped.in_front(),
            ClipResult::Two((first, second)) => first.in_front() && second.in_front(),
        },
        match clip_cull_spec(t) {
            ClipResult::Empty => true,
            ClipResult::One(clipped) => clipped.in_front(),
            ClipResult::Two((first, second)) => first.in_front() && second.in_front(),
        },
{
    if t.behind_count() == 1 {
        lemma_clip_one_behind(t);
    } else if t.behind_count() == 2 {
        lemma_clip_two_behind(t);
    }
}

} // verus!
