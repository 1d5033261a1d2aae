//! The screen: the viewport, the screen points of positions in clip space,
//! and the bounding box that limits the scan of a triangle.
use vstd::prelude::*;
use crate::fixed::{max2, max3, min2, min3};
use crate::geometry::Vertex;
use crate::utils::{
    barycentric_spec,
    edge_spec,
    lemma_coords_index_round_trip,
    lemma_div_between,
    lemma_edges_sum_to_area,
    map_to_range,
    map_to_range_spec,
    toward,
};
use crate::vector::{Vec2, Vec4};

verus! {

/// Screen coordinates count in this many parts of a pixel.
pub const SUBPIXEL: i32 = 256;

/// The largest width and height of a viewport, in pixels. The limit is that
/// of the arithmetic: with it the centre of every pixel lies within
/// [`SCREEN_LIMIT`].
pub const MAX_DIMENSION: usize = 0x40_0000;

/// The largest magnitude of a screen coordinate that is rasterized: four
/// million pixels to either side of the viewport's corner. A triangle with a
/// vertex further out is skipped whole, not cut down to the viewport. The
/// limit is that of the arithmetic: a fragment is a sum of three products of
/// an edge function, a reciprocal of `w` and an attribute, and with screen
/// coordinates of 31 bits that sum fills the 128 bits of the widest integer.
pub const SCREEN_LIMIT: i32 = 0x4000_0000;

/// The size in pixels of the buffers that are drawn to.
#[derive(Debug, Copy, Clone, PartialEq, Eq, Structural)]
pub struct Viewport {
    pub width: usize,
    pub height: usize,
}

impl Viewport {
    /// Both sides are at least one pixel and at most [`MAX_DIMENSION`] long, so
    /// that the centre of every pixel is a screen point that is rasterized.
    pub open spec fn wf(self) -> bool {
        &&& 0 < self.width <= MAX_DIMENSION
        &&& 0 < self.height <= MAX_DIMENSION
    }

    /// The number of pixels.
    pub open spec fn area(self) -> int {
        self.width * self.height
    }

    /// A viewport of the given size, or nothing when a side is empty or too long.
    pub fn new(width: usize, height: usize) -> (r: Option<Viewport>)
        ensures
            r == if 0 < width <= MAX_DIMENSION && 0 < height <= MAX_DIMENSION {
                Some((Viewport { width, height }))
            } else {
                None
            },
    {
        if 0 < width && width <= MAX_DIMENSION && 0 < height && height <= MAX_DIMENSION {
            Some(Viewport { width, height })
        } else {
            None
        }
    }
}

/// An axis-aligned box of the screen, both corners included.
#[derive(Debug, Copy, Clone, PartialEq, Eq, Structural)]
pub struct AABB {
    pub min: Vec2,
    pub max: Vec2,
}

fn least(a: i32, b: i32) -> (r: i32)
    ensures
        r == min2(a as int, b as int),
{
    if a <= b {
        a
    } else {
        b
    }
}

fn greatest(a: i32, b: i32) -> (r: i32)
    ensures
        r == max2(a as int, b as int),
{
    if a >= b {
        a
    } else {
        b
    }
}

impl AABB {
    /// The smallest box that holds the three points.
    pub open spec fn of_points(p: [Vec2; 3]) -> AABB {
        AABB {
            min: Vec2 {
                x: min3(p[0].x as int, p[1].x as int, p[2].x as int) as i32,
                y: min3(p[0].y as int, p[1].y as int, p[2].y as int) as i32,
            },
            max: Vec2 {
                x: max3(p[0].x as int, p[1].x as int, p[2].x as int) as i32,
                y: max3(p[0].y as int, p[1].y as int, p[2].y as int) as i32,
            },
        }
    }

    /// The smallest box that holds the three points.
    pub fn new(vertices: &[Vec2; 3]) -> (r: AABB)
        ensures
            r == Self::of_points(*vertices),
    {
        let left = least(least(vertices[0].x, vertices[1].x), vertices[2].x);
        let right = greatest(greatest(vertices[0].x, vertices[1].x), vertices[2].x);
        let bottom = least(least(vertices[0].y, vertices[1].y), vertices[2].y);
        let top = greatest(greatest(vertices[0].y, vertices[1].y), vertices[2].y);
        AABB { min: Vec2 { x: left, y: bottom }, max: Vec2 { x: right, y: top } }
    }

    /// The smallest box that holds the positions of a quadrilateral: its lower
    /// corner is the smallest `x` and `y` of the four, its upper corner the
    /// largest.
    pub open spec fn of_box(v: [Vertex; 4]) -> AABB {
        AABB {
            min: Vec2 {
                x: min2(
                    min3(v[0].position.x as int, v[1].position.x as int, v[2].position.x as int),
                    v[3].position.x as int,
                ) as i32,
                y: min2(
                    min3(v[0].position.y as int, v[1].position.y as int, v[2].position.y as int),
                    v[3].position.y as int,
                ) as i32,
            },
            max: Vec2 {
                x: max2(
                    max3(v[0].position.x as int, v[1].position.x as int, v[2].position.x as int),
                    v[3].position.x as int,
                ) as i32,
                y: max2(
                    max3(v[0].position.y as int, v[1].position.y as int, v[2].position.y as int),
                    v[3].position.y as int,
                ) as i32,
            },
        }
    }

    /// The smallest box that holds the positions of a quadrilateral.
    pub fn new_box(vertices: &[Vertex; 4]) -> (r: AABB)
        ensures
            r == Self::of_box(*vertices),
    {
        let v0 = vertices[0].position;
        let v1 = vertices[1].position;
        let v2 = vertices[2].position;
        let v3 = vertices[3].position;
        let xmax = greatest(greatest(greatest(v0.x, v1.x), v2.x), v3.x);
        let ymax = greatest(greatest(greatest(v0.y, v1.y), v2.y), v3.y);
        let xmin = least(least(least(v0.x, v1.x), v2.x), v3.x);
        let ymin = least(least(least(v0.y, v1.y), v2.y), v3.y);
        AABB { min: Vec2 { x: xmin, y: ymin }, max: Vec2 { x: xmax, y: ymax } }
    }

    /// The point lies in the box or on its border.
    pub open spec fn contains(self, point: Vec2) -> bool {
        &&& self.min.x <= point.x <= self.max.x
        &&& self.min.y <= point.y <= self.max.y
    }

    /// The point lies in the box or on its border.
    pub fn intersects(&self, point: Vec2) -> (r: bool)
        ensures
            r == self.contains(point),
    {
        point.x >= self.min.x && point.x <= self.max.x && point.y >= self.min.y && point.y
            <= self.max.y
    }
}

/// The box of a quadrilateral holds each of its four corners, and each side
/// of the box touches one of them.
pub proof fn lemma_box_holds_corners(v: [Vertex; 4])
    ensures
        forall|i: int|
            0 <= i < 4 ==> AABB::of_box(v).contains((#[trigger] v[i]).position.xy_spec()),
        exists|i: int| 0 <= i < 4 && AABB::of_box(v).min.x == (#[trigger] v[i]).position.x,
        exists|i: int| 0 <= i < 4 && AABB::of_box(v).min.y == (#[trigger] v[i]).position.y,
        exists|i: int| 0 <= i < 4 && AABB::of_box(v).max.x == (#[trigger] v[i]).position.x,
        exists|i: int| 0 <= i < 4 && AABB::of_box(v).max.y == (#[trigger] v[i]).position.y,
{
    let b = AABB::of_box(v);
    assert(b.min.x == v[0].position.x || b.min.x == v[1].position.x || b.min.x
        == v[2].position.x || b.min.x == v[3].position.x);
    assert(b.min.y == v[0].position.y || b.min.y == v[1].position.y || b.min.y
        == v[2].position.y || b.min.y == v[3].position.y);
    assert(b.max.x == v[0].position.x || b.max.x == v[1].position.x || b.max.x
        == v[2].position.x || b.max.x == v[3].position.x);
    assert(b.max.y == v[0].position.y || b.max.y == v[1].position.y || b.max.y
        == v[2].position.y || b.max.y == v[3].position.y);
}

/// The part inside the viewport of the bounding box of three screen points;
/// nothing where the box lies wholly outside.
pub open spec fn screen_box_spec(p: [Vec2; 3], viewport: Viewport) -> Option<AABB> {
    let bb = AABB::of_points(p);
    if bb.min.x > viewport.width * SUBPIXEL || bb.max.x < 0 || bb.min.y > viewport.height
        * SUBPIXEL || bb.max.y < 0 {
        None
    } else {
        Some(
            (AABB {
                min: Vec2 {
                    x: max2(bb.min.x as int, 0) as i32,
                    y: max2(bb.min.y as int, 0) as i32,
                },
                max: Vec2 {
                    x: min2(bb.max.x as int, (viewport.width - 1) * SUBPIXEL) as i32,
                    y: min2(bb.max.y as int, (viewport.height - 1) * SUBPIXEL) as i32,
                },
            }),
        )
    }
}

/// The bounding box of three screen points, cut down to the viewport.
pub fn triangle_screen_bounding_box(positions: &[Vec2; 3], viewport_size: Viewport) -> (r: Option<
    AABB,
>)
    requires
        viewport_size.wf(),
    ensures
        r == screen_box_spec(*positions, viewport_size),
{
    let bb = AABB::new(positions);
    let width: i32 = viewport_size.width as i32 * SUBPIXEL;
    let height: i32 = viewport_size.height as i32 * SUBPIXEL;
    if bb.min.x > width || bb.max.x < 0 || bb.min.y > height || bb.max.y < 0 {
        None
    } else {
        let left = greatest(bb.min.x, 0);
        let right = least(bb.max.x, width - SUBPIXEL);
        let bottom = greatest(bb.min.y, 0);
        let top = least(bb.max.y, height - SUBPIXEL);
        Some(AABB { min: Vec2 { x: left, y: bottom }, max: Vec2 { x: right, y: top } })
    }
}

/// The screen point of a position in clip space: the position divided by `w`,
/// with `x` from -1 to 1 mapped to the viewport's width and `y` from 1 to -1 to
/// its height. Nothing where `w` is not positive or the point lies further out
/// than [`SCREEN_LIMIT`].
pub open spec fn screen_spec(p: Vec4, viewport: Viewport) -> Option<Vec2> {
    let x = map_to_range_spec(p.x as int, -p.w, p.w as int, 0, viewport.width * SUBPIXEL);
    let y = map_to_range_spec(-p.y, -p.w, p.w as int, 0, viewport.height * SUBPIXEL);
    if p.w > 0 && -SCREEN_LIMIT <= x <= SCREEN_LIMIT && -SCREEN_LIMIT <= y <= SCREEN_LIMIT {
        Some((Vec2 { x: x as i32, y: y as i32 }))
    } else {
        None
    }
}

/// A position inside the view volume has a screen point, and the point lies
/// in the viewport or on its border.
pub proof fn lemma_screen_inside_viewport(p: Vec4, viewport: Viewport)
    requires
        viewport.wf(),
        p.w > 0,
        -p.w <= p.x <= p.w,
        -p.w <= p.y <= p.w,
    ensures
        screen_spec(p, viewport) matches Some(s) && 0 <= s.x <= viewport.width * SUBPIXEL && 0
            <= s.y <= viewport.height * SUBPIXEL,
{
    lemma_screen_coordinate_inside(p.x as int, p.w as int, viewport.width * SUBPIXEL);
    lemma_screen_coordinate_inside(-p.y, p.w as int, viewport.height * SUBPIXEL);
}

proof fn lemma_screen_coordinate_inside(v: int, w: int, size: int)
    requires
        w > 0,
        size > 0,
        -w <= v <= w,
    ensures
        0 <= map_to_range_spec(v, -w, w, 0, size) <= size,
{
    let n = (v + w) * (size - 0);
    let d = w - (-w);
    assert(0 * d <= n <= size * d) by (nonlinear_arith)
        requires
            n == (v + w) * (size - 0),
            d == w - (-w),
            -w <= v <= w,
            size > 0,
    ;
    lemma_div_between(n, d, 0, size);
}

/// Bounds of the screen coordinate of a position with positive `w`.
proof fn lemma_screen_coordinate_fits(v: int, w: int, size: int)
    requires
        -0x8000_0000 <= v <= 0x8000_0000,
        0 < w <= 0x8000_0000,
        0 < size <= 0x4000_0000,
    ensures
        -0x4000_0000_0000_0001 <= map_to_range_spec(v, -w, w, 0, size) <= 0x4000_0000_0000_0000,
{
    let n = (v + w) * (size - 0);
    let d = w - (-w);
    assert(-0x1_0000_0000 * 0x4000_0000 <= n <= 0x1_0000_0000 * 0x4000_0000) by (nonlinear_arith)
        requires
            n == (v + w) * (size - 0),
            -0x1_0000_0000 <= v + w <= 0x1_0000_0000,
            0 < size <= 0x4000_0000,
    ;
    vstd::arithmetic::div_mod::lemma_fundamental_div_mod(n, d);
    let q = n / d;
    let r = n % d;
    assert(-0x1_0000_0000 * 0x4000_0000 - 1 <= q <= 0x1_0000_0000 * 0x4000_0000)
        by (nonlinear_arith)
        requires
            n == d * q + r,
            0 <= r < d,
            d >= 2,
            -0x1_0000_0000 * 0x4000_0000 <= n <= 0x1_0000_0000 * 0x4000_0000,
    ;
}

/// Computes [`screen_spec`].
pub fn to_screen(p: Vec4, viewport: Viewport) -> (r: Option<Vec2>)
    requires
        viewport.wf(),
    ensures
        r == screen_spec(p, viewport),
{
    if p.w <= 0 {
        return None;
    }
    let w = p.w as i64;
    let width = viewport.width as i64 * SUBPIXEL as i64;
    let height = viewport.height as i64 * SUBPIXEL as i64;
    proof {
        lemma_screen_coordinate_fits(p.x as int, w as int, width as int);
        lemma_screen_coordinate_fits(-p.y, w as int, height as int);
    }
    let x = map_to_range(p.x as i64, -w, w, 0, width);
    let y = map_to_range(-(p.y as i64), -w, w, 0, height);
    let limit = SCREEN_LIMIT as i64;
    if -limit <= x && x <= limit && -limit <= y && y <= limit {
        Some(Vec2 { x: x as i32, y: y as i32 })
    } else {
        None
    }
}

/// The centre of the pixel in column `px` of row `py`.
pub open spec fn pixel_center(px: int, py: int) -> Vec2 {
    Vec2 { x: (px * SUBPIXEL + SUBPIXEL / 2) as i32, y: (py * SUBPIXEL + SUBPIXEL / 2) as i32 }
}

/// Every position in the buffers of a viewport is that of a pixel of the viewport.
pub proof fn lemma_pixel_of_index(i: int, viewport: Viewport)
    requires
        viewport.wf(),
        0 <= i < viewport.area(),
    ensures
        0 <= i % (viewport.width as int) < viewport.width,
        0 <= i / (viewport.width as int) < viewport.height,
        i % (viewport.width as int) + (i / (viewport.width as int)) * viewport.width == i,
{
    let w = viewport.width as int;
    let h = viewport.height as int;
    lemma_coords_index_round_trip(i, w);
    let q = i / w;
    let r = i % w;
    assert(q < h) by (nonlinear_arith)
        requires
            r + q * w < w * h,
            0 <= r,
            w > 0,
    ;
}

/// The three edge functions at a point weigh the offsets from the point to
/// the vertices to zero, along either axis.
proof fn lemma_edges_balance(
    d0: int,
    d1: int,
    d2: int,
    o0: int,
    o1: int,
    o2: int,
)
    ensures
        (d1 * o2 - d2 * o1) * d0 + (d2 * o0 - d0 * o2) * d1 + (d0 * o1 - d1 * o0) * d2 == 0,
        (d1 * o2 - d2 * o1) * o0 + (d2 * o0 - d0 * o2) * o1 + (d0 * o1 - d1 * o0) * o2 == 0,
{
    lemma_triple_product(d1, o2, d2, o1, d0);
    lemma_triple_product(d2, o0, d0, o2, d1);
    lemma_triple_product(d0, o1, d1, o0, d2);
    lemma_triple_product(d1, o2, d2, o1, o0);
    lemma_triple_product(d2, o0, d0, o2, o1);
    lemma_triple_product(d0, o1, d1, o0, o2);
    lemma_triple_commutes(d1, o2, d0, d0, o2, d1);
    lemma_triple_commutes(d2, o1, d0, d0, o1, d2);
    lemma_triple_commutes(d2, o0, d1, d1, o0, d2);
    lemma_triple_commutes(d1, o2, o0, d1, o0, o2);
    lemma_triple_commutes(d2, o1, o0, d2, o0, o1);
    lemma_triple_commutes(d0, o2, o1, d0, o1, o2);
}

proof fn lemma_triple_product(a: int, b: int, c: int, d: int, k: int)
    by (nonlinear_arith)
    ensures
        (a * b - c * d) * k == a * b * k - c * d * k,
{
}

proof fn lemma_triple_commutes(a: int, b: int, c: int, x: int, y: int, z: int)
    by (nonlinear_arith)
    requires
        (a == x && b == y && c == z) || (a == x && b == z && c == y) || (a == y && b == x && c
            == z) || (a == y && b == z && c == x) || (a == z && b == x && c == y) || (a == z && b
            == y && c == x),
    ensures
        a * b * c == x * y * z,
{
}

/// The edge function in terms of the offsets from the point to the two ends.
proof fn lemma_edge_by_offsets(v1: Vec2, v0: Vec2, p: Vec2)
    ensures
        edge_spec(v1, v0, p) == (v1.x - p.x) * (v0.y - p.y) - (v0.x - p.x) * (v1.y - p.y),
{
    let ax = v1.x - p.x;
    let ay = v1.y - p.y;
    let bx = v0.x - p.x;
    let by = v0.y - p.y;
    assert((0 - bx) * (ay - by) - (0 - by) * (ax - bx) == ax * by - bx * ay) by (nonlinear_arith);
}

proof fn lemma_weighted_offsets_negative(m0: int, m1: int, m2: int, d0: int, d1: int, d2: int)
    by (nonlinear_arith)
    requires
        m0 >= 0,
        m1 >= 0,
        m2 >= 0,
        m0 + m1 + m2 > 0,
        d0 < 0,
        d1 < 0,
        d2 < 0,
    ensures
        m0 * d0 + m1 * d1 + m2 * d2 < 0,
{
}

proof fn lemma_weighted_offsets_positive(m0: int, m1: int, m2: int, d0: int, d1: int, d2: int)
    by (nonlinear_arith)
    requires
        m0 >= 0,
        m1 >= 0,
        m2 >= 0,
        m0 + m1 + m2 > 0,
        d0 > 0,
        d1 > 0,
        d2 > 0,
    ensures
        m0 * d0 + m1 * d1 + m2 * d2 > 0,
{
}

proof fn lemma_negate_product(e: int, d: int)
    by (nonlinear_arith)
    ensures
        (-e) * d == -(e * d),
{
}

/// A point in a triangle or on its border lies in the triangle's bounding box.
pub proof fn lemma_inside_within_box(p: Vec2, v0: Vec2, v1: Vec2, v2: Vec2)
    requires
        barycentric_spec(p, v0, v1, v2, edge_spec(v0, v1, v2)) is Some,
    ensures
        AABB::of_points([v0, v1, v2]).contains(p),
{
    let area = edge_spec(v0, v1, v2);
    let e0 = edge_spec(v1, v2, p);
    let e1 = edge_spec(v2, v0, p);
    let e2 = edge_spec(v0, v1, p);
    let m0 = toward(area, e0);
    let m1 = toward(area, e1);
    let m2 = toward(area, e2);
    let dx0 = v0.x - p.x;
    let dx1 = v1.x - p.x;
    let dx2 = v2.x - p.x;
    let dy0 = v0.y - p.y;
    let dy1 = v1.y - p.y;
    let dy2 = v2.y - p.y;
    lemma_edges_sum_to_area(p, v0, v1, v2);
    lemma_edge_by_offsets(v1, v2, p);
    lemma_edge_by_offsets(v2, v0, p);
    lemma_edge_by_offsets(v0, v1, p);
    lemma_edges_balance(dx0, dx1, dx2, dy0, dy1, dy2);
    assert(e0 * dx0 + e1 * dx1 + e2 * dx2 == 0);
    assert(e0 * dy0 + e1 * dy1 + e2 * dy2 == 0);
    lemma_negate_product(e0, dx0);
    lemma_negate_product(e1, dx1);
    lemma_negate_product(e2, dx2);
    lemma_negate_product(e0, dy0);
    lemma_negate_product(e1, dy1);
    lemma_negate_product(e2, dy2);
    assert(m0 * dx0 + m1 * dx1 + m2 * dx2 == 0);
    assert(m0 * dy0 + m1 * dy1 + m2 * dy2 == 0);
    assert(m0 + m1 + m2 > 0);
    if dx0 < 0 && dx1 < 0 && dx2 < 0 {
        lemma_weighted_offsets_negative(m0, m1, m2, dx0, dx1, dx2);
    }
    if dx0 > 0 && dx1 > 0 && dx2 > 0 {
        lemma_weighted_offsets_positive(m0, m1, m2, dx0, dx1, dx2);
    }
    if dy0 < 0 && dy1 < 0 && dy2 < 0 {
        lemma_weighted_offsets_negative(m0, m1, m2, dy0, dy1, dy2);
    }
    if dy0 > 0 && dy1 > 0 && dy2 > 0 {
        lemma_weighted_offsets_positive(m0, m1, m2, dy0, dy1, dy2);
    }
}

} // verus!
