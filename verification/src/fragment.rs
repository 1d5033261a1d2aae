//! Fragments: what a triangle contributes to one pixel, by
//! perspective-correct interpolation and shading.
use vstd::prelude::*;
use crate::fixed::{clamp, div_floor, fixed_mul, max3, min3};
use crate::geometry::Triangle;
use crate::screen::{
    pixel_center,
    screen_spec,
    to_screen,
    Viewport,
    MAX_DIMENSION,
    SCREEN_LIMIT,
    SUBPIXEL,
};
use crate::utils::{
    argb8,
    barycentric_coordinates,
    barycentric_spec,
    edge_fn,
    edge_spec,
    lemma_div_between,
    lemma_edge_bound,
    lemma_edges_sum_to_area,
    lemma_mul_bound,
    to_argb8,
};
use crate::vector::{Vec2, Vec3};

verus! {

/// The fixed-point scalar that stands for 1 among the reciprocals of `w`: the
/// reciprocal of the vertex that is nearest.
pub const RECIPROCAL_ONE: i64 = 0x8000_0000;

/// The reciprocal of `w` as a part of the reciprocal of `nearest`, the
/// smallest `w` of the triangle: `nearest / w`, in units of one over
/// [`RECIPROCAL_ONE`]. Interpolation takes the reciprocals in proportion
/// only, so that the largest of them may stand for one.
pub open spec fn reciprocal_spec(w: i32, nearest: int) -> int {
    (nearest * 0x8000_0000) / (w as int)
}

fn reciprocal(w: i32, nearest: i32) -> (r: i64)
    requires
        0 < nearest <= w,
    ensures
        r == reciprocal_spec(w, nearest as int),
        1 <= r <= RECIPROCAL_ONE,
{
    proof {
        lemma_div_between(nearest * 0x8000_0000, w as int, 1, 0x8000_0000);
    }
    ((nearest as i64) * RECIPROCAL_ONE) / (w as i64)
}

/// A triangle on the screen: its three screen points, its doubled signed
/// area, and the reciprocal of each vertex's `w` as a part of the largest of
/// the three.
#[derive(Debug, Copy, Clone, PartialEq, Eq)]
pub struct Projected {
    pub screen: [Vec2; 3],
    pub area: i128,
    pub reciprocal: [i64; 3],
}

impl Projected {
    /// The points lie within [`SCREEN_LIMIT`], the area is theirs and not zero,
    /// and the reciprocals lie between the least unit and one.
    pub open spec fn wf(self) -> bool {
        &&& forall|i: int|
            0 <= i < 3 ==> -SCREEN_LIMIT <= (#[trigger] self.screen[i]).x <= SCREEN_LIMIT
                && -SCREEN_LIMIT <= self.screen[i].y <= SCREEN_LIMIT
        &&& self.area == edge_spec(self.screen[0], self.screen[1], self.screen[2])
        &&& self.area != 0
        &&& forall|i: int| 0 <= i < 3 ==> 1 <= #[trigger] self.reciprocal[i] <= RECIPROCAL_ONE
    }

    /// The doubled area without its sign.
    pub open spec fn total(self) -> int {
        if self.area > 0 {
            self.area as int
        } else {
            -self.area
        }
    }
}

/// The triangle on the screen; nothing where a vertex has no screen point or
/// the screen points lie on one line.
pub open spec fn project_spec(t: Triangle, viewport: Viewport) -> Option<Projected> {
    match (
        screen_spec(t.vertices[0].position, viewport),
        screen_spec(t.vertices[1].position, viewport),
        screen_spec(t.vertices[2].position, viewport),
    ) {
        (Some(s0), Some(s1), Some(s2)) => {
            let nearest = min3(
                t.vertices[0].position.w as int,
                t.vertices[1].position.w as int,
                t.vertices[2].position.w as int,
            );
            if edge_spec(s0, s1, s2) != 0 {
                Some(
                    (Projected {
                        screen: [s0, s1, s2],
                        area: edge_spec(s0, s1, s2) as i128,
                        reciprocal: [
                            reciprocal_spec(t.vertices[0].position.w, nearest) as i64,
                            reciprocal_spec(t.vertices[1].position.w, nearest) as i64,
                            reciprocal_spec(t.vertices[2].position.w, nearest) as i64,
                        ],
                    }),
                )
            } else {
                None
            }
        },
        _ => None,
    }
}

/// Computes [`project_spec`].
pub fn project(t: &Triangle, viewport: Viewport) -> (r: Option<Projected>)
    requires
        viewport.wf(),
    ensures
        r == project_spec(*t, viewport),
        r matches Some(s) ==> s.wf(),
{
    let s0 = match to_screen(t.vertices[0].position, viewport) {
        Some(s) => s,
        None => { return None; },
    };
    let s1 = match to_screen(t.vertices[1].position, viewport) {
        Some(s) => s,
        None => { return None; },
    };
    let s2 = match to_screen(t.vertices[2].position, viewport) {
        Some(s) => s,
        None => { return None; },
    };
    let area = edge_fn(s0, s1, s2);
    if area == 0 {
        return None;
    }
    proof {
        lemma_edge_bound(s0, s1, s2);
    }
    let w0 = t.vertices[0].position.w;
    let w1 = t.vertices[1].position.w;
    let w2 = t.vertices[2].position.w;
    let mut nearest = w0;
    if w1 < nearest {
        nearest = w1;
    }
    if w2 < nearest {
        nearest = w2;
    }
    let r0 = reciprocal(w0, nearest);
    let r1 = reciprocal(w1, nearest);
    let r2 = reciprocal(w2, nearest);
    Some(Projected { screen: [s0, s1, s2], area, reciprocal: [r0, r1, r2] })
}

/// The weights of the three vertices at one pixel for perspective-correct
/// interpolation: each barycentric weight times the reciprocal of the vertex's `w`.
#[derive(Debug, Copy, Clone, PartialEq, Eq, Structural)]
pub struct Weights {
    pub q0: i128,
    pub q1: i128,
    pub q2: i128,
}

/// The largest value of one perspective weight: that of a doubled area of
/// 63 bits with a reciprocal of one.
pub const WEIGHT_LIMIT: i128 = 0x4000_0000_0000_0000_0000_0000;

impl Weights {
    /// No weight is negative or beyond [`WEIGHT_LIMIT`], and one is positive.
    pub open spec fn wf(self) -> bool {
        &&& 0 <= self.q0 <= WEIGHT_LIMIT
        &&& 0 <= self.q1 <= WEIGHT_LIMIT
        &&& 0 <= self.q2 <= WEIGHT_LIMIT
        &&& self.q0 + self.q1 + self.q2 > 0
    }

    /// The sum of the three weights.
    pub open spec fn sum(self) -> int {
        self.q0 + self.q1 + self.q2
    }
}

/// The perspective weights at a pixel; nothing where the pixel's centre lies
/// outside the triangle.
pub open spec fn weights_spec(s: Projected, px: int, py: int) -> Option<Weights> {
    match barycentric_spec(
        pixel_center(px, py),
        s.screen[0],
        s.screen[1],
        s.screen[2],
        s.area as int,
    ) {
        Some(b) => Some(
            (Weights {
                q0: (b.m0 * s.reciprocal[0]) as i128,
                q1: (b.m1 * s.reciprocal[1]) as i128,
                q2: (b.m2 * s.reciprocal[2]) as i128,
            }),
        ),
        None => None,
    }
}

/// Inside a projected triangle no barycentric weight exceeds the doubled
/// area, which stays below two to the 63.
proof fn lemma_weights_bounded(s: Projected, p: Vec2)
    requires
        s.wf(),
    ensures
        0 < s.total() <= 0x8000_0000_0000_0000,
        barycentric_spec(p, s.screen[0], s.screen[1], s.screen[2], s.area as int) matches Some(b)
            ==> 0 <= b.m0 <= s.total() && 0 <= b.m1 <= s.total() && 0 <= b.m2 <= s.total()
            && b.m0 + b.m1 + b.m2 == s.total(),
{
    let v0 = s.screen[0];
    let v1 = s.screen[1];
    let v2 = s.screen[2];
    lemma_mul_bound(v2.x - v1.x, v0.y - v1.y, 0x8000_0000, 0x8000_0000);
    lemma_mul_bound(v2.y - v1.y, v0.x - v1.x, 0x8000_0000, 0x8000_0000);
    lemma_edges_sum_to_area(p, v0, v1, v2);
    lemma_edge_bound(v1, v2, p);
    lemma_edge_bound(v2, v0, p);
    lemma_edge_bound(v0, v1, p);
}

/// Computes [`weights_spec`].
pub fn weights(s: &Projected, px: usize, py: usize) -> (r: Option<Weights>)
    requires
        s.wf(),
        px < MAX_DIMENSION,
        py < MAX_DIMENSION,
    ensures
        r == weights_spec(*s, px as int, py as int),
        r matches Some(q) ==> q.wf(),
{
    let center = Vec2 {
        x: px as i32 * SUBPIXEL + SUBPIXEL / 2,
        y: py as i32 * SUBPIXEL + SUBPIXEL / 2,
    };
    proof {
        lemma_weights_wf(*s, px as int, py as int);
    }
    match barycentric_coordinates(center, s.screen[0], s.screen[1], s.screen[2], s.area) {
        Some(b) => Some(
            Weights {
                q0: b.m0 * (s.reciprocal[0] as i128),
                q1: b.m1 * (s.reciprocal[1] as i128),
                q2: b.m2 * (s.reciprocal[2] as i128),
            },
        ),
        None => None,
    }
}

proof fn lemma_weight_sign(m: int, r: int)
    by (nonlinear_arith)
    requires
        m >= 0,
        r >= 1,
    ensures
        m * r >= m,
{
}

/// The perspective-correct value at a pixel of an attribute that has the
/// values `a0`, `a1`, `a2` at the three vertices.
pub open spec fn interpolate_spec(q: Weights, a0: int, a1: int, a2: int) -> int {
    (q.q0 * a0 + q.q1 * a1 + q.q2 * a2) / (q.q0 + q.q1 + q.q2)
}

/// An interpolated value lies between the smallest and the largest of the
/// three that it is interpolated from.
pub proof fn lemma_interpolate_between(q: Weights, a0: int, a1: int, a2: int)
    requires
        q.wf(),
    ensures
        min3(a0, a1, a2) <= interpolate_spec(q, a0, a1, a2) <= max3(a0, a1, a2),
{
    let lo = min3(a0, a1, a2);
    let hi = max3(a0, a1, a2);
    lemma_scale_between(q.q0 as int, a0, lo, hi);
    lemma_scale_between(q.q1 as int, a1, lo, hi);
    lemma_scale_between(q.q2 as int, a2, lo, hi);
    let d = q.q0 + q.q1 + q.q2;
    assert(lo * d == q.q0 * lo + q.q1 * lo + q.q2 * lo) by (nonlinear_arith)
        requires
            d == q.q0 + q.q1 + q.q2,
    ;
    assert(hi * d == q.q0 * hi + q.q1 * hi + q.q2 * hi) by (nonlinear_arith)
        requires
            d == q.q0 + q.q1 + q.q2,
    ;
    lemma_div_between(q.q0 * a0 + q.q1 * a1 + q.q2 * a2, d, lo, hi);
}

proof fn lemma_scale_between(q: int, a: int, lo: int, hi: int)
    by (nonlinear_arith)
    requires
        q >= 0,
        lo <= a <= hi,
    ensures
        q * lo <= q * a <= q * hi,
{
}

/// Where only the first vertex has weight, the interpolated value is the
/// value at that vertex; so for the second and the third.
pub proof fn lemma_interpolate_at_vertex(q: Weights, a0: int, a1: int, a2: int)
    requires
        q.wf(),
    ensures
        q.q1 == 0 && q.q2 == 0 ==> interpolate_spec(q, a0, a1, a2) == a0,
        q.q0 == 0 && q.q2 == 0 ==> interpolate_spec(q, a0, a1, a2) == a1,
        q.q0 == 0 && q.q1 == 0 ==> interpolate_spec(q, a0, a1, a2) == a2,
{
    assert(0 * a0 == 0 && 0 * a1 == 0 && 0 * a2 == 0) by (nonlinear_arith);
    if q.q1 == 0 && q.q2 == 0 {
        lemma_div_between(q.q0 * a0, q.q0 as int, a0, a0);
    }
    if q.q0 == 0 && q.q2 == 0 {
        lemma_div_between(q.q1 * a1, q.q1 as int, a1, a1);
    }
    if q.q0 == 0 && q.q1 == 0 {
        lemma_div_between(q.q2 * a2, q.q2 as int, a2, a2);
    }
}

/// Computes [`interpolate_spec`].
pub fn interpolate(q: &Weights, a0: i32, a1: i32, a2: i32) -> (r: i32)
    requires
        q.wf(),
    ensures
        r == interpolate_spec(*q, a0 as int, a1 as int, a2 as int),
        min3(a0 as int, a1 as int, a2 as int) <= r <= max3(a0 as int, a1 as int, a2 as int),
{
    proof {
        lemma_mul_bound(q.q0 as int, a0 as int, WEIGHT_LIMIT as int, 0x8000_0000);
        lemma_mul_bound(q.q1 as int, a1 as int, WEIGHT_LIMIT as int, 0x8000_0000);
        lemma_mul_bound(q.q2 as int, a2 as int, WEIGHT_LIMIT as int, 0x8000_0000);
        lemma_interpolate_between(*q, a0 as int, a1 as int, a2 as int);
    }
    let n: i128 = q.q0 * (a0 as i128) + q.q1 * (a1 as i128) + q.q2 * (a2 as i128);
    let d: i128 = q.q0 + q.q1 + q.q2;
    div_floor(n, d) as i32
}

/// The direction towards the light, the same in all three axes: one over the
/// square root of three.
pub const LIGHT: i32 = 37837;

/// The light that reaches every surface, as a step of a colour byte: a fifth
/// of the 255 steps.
pub const AMBIENT: u8 = 51;

/// How much of the light a surface with the normal `n` receives: the dot
/// product of the normal and the direction towards the light.
pub open spec fn diffuse_spec(n: Vec3) -> int {
    fixed_mul(n.x + n.y + n.z, LIGHT as int)
}

/// The byte of a colour channel of value `c` between 0 and 1 under the
/// diffuse light `d` and the ambient light: the byte of the diffusely lit
/// channel, and the ambient light added to it, within the range of a byte.
pub open spec fn lit_channel(c: int, d: int) -> u8 {
    clamp((fixed_mul(c, d) * 255) / 65536 + AMBIENT, 0, 255) as u8
}

fn diffuse(n: Vec3) -> (r: i64)
    ensures
        r == diffuse_spec(n),
        -0x1_0000_0000 <= r <= 0x1_0000_0000,
{
    let sum: i128 = n.x as i128 + n.y as i128 + n.z as i128;
    proof {
        lemma_mul_bound(sum as int, LIGHT as int, 0x1_8000_0000, 37837);
    }
    div_floor(sum * (LIGHT as i128), 65536) as i64
}

fn light_channel(c: i32, d: i64) -> (r: u8)
    requires
        -0x1_0000_0000 <= d <= 0x1_0000_0000,
    ensures
        r == lit_channel(c as int, d as int),
{
    proof {
        lemma_mul_bound(c as int, d as int, 0x8000_0000, 0x1_0000_0000);
    }
    let product: i128 = (c as i128) * (d as i128);
    let lit: i128 = div_floor(product, 65536);
    let scaled: i128 = div_floor(lit * 255, 65536) + AMBIENT as i128;
    if scaled < 0 {
        0
    } else if scaled > 255 {
        255
    } else {
        scaled as u8
    }
}

/// The normal at a pixel.
pub open spec fn normal_spec(t: Triangle, q: Weights) -> Vec3 {
    let n0 = t.vertices[0].normal;
    let n1 = t.vertices[1].normal;
    let n2 = t.vertices[2].normal;
    Vec3 {
        x: interpolate_spec(q, n0.x as int, n1.x as int, n2.x as int) as i32,
        y: interpolate_spec(q, n0.y as int, n1.y as int, n2.y as int) as i32,
        z: interpolate_spec(q, n0.z as int, n1.z as int, n2.z as int) as i32,
    }
}

/// The unlit colour at a pixel, red, green and blue in `x`, `y` and `z`: the
/// texel at the interpolated texture coordinates where the triangle has a
/// texture, the interpolated vertex colour where it has none.
pub open spec fn base_color_spec(t: Triangle, q: Weights) -> Vec3 {
    let v0 = t.vertices[0];
    let v1 = t.vertices[1];
    let v2 = t.vertices[2];
    match t.texture {
        Some(texture) => {
            let u = interpolate_spec(q, v0.uv.x as int, v1.uv.x as int, v2.uv.x as int) as i32;
            let v = interpolate_spec(q, v0.uv.y as int, v1.uv.y as int, v2.uv.y as int) as i32;
            let c = texture.color_spec(u, v);
            Vec3 { x: c.y, y: c.z, z: c.w }
        },
        None => Vec3 {
            x: interpolate_spec(q, v0.color.x as int, v1.color.x as int, v2.color.x as int) as i32,
            y: interpolate_spec(q, v0.color.y as int, v1.color.y as int, v2.color.y as int) as i32,
            z: interpolate_spec(q, v0.color.z as int, v1.color.z as int, v2.color.z as int) as i32,
        },
    }
}

/// The packed colour of a pixel: the unlit colour under the diffuse and the
/// ambient light, opaque.
pub open spec fn shade_spec(t: Triangle, q: Weights) -> u32 {
    let d = diffuse_spec(normal_spec(t, q));
    let c = base_color_spec(t, q);
    argb8(255, lit_channel(c.x as int, d), lit_channel(c.y as int, d), lit_channel(c.z as int, d))
}

/// Computes [`shade_spec`].
pub fn shade(t: &Triangle, q: &Weights) -> (r: u32)
    requires
        q.wf(),
    ensures
        r == shade_spec(*t, *q),
{
    let v0 = t.vertices[0];
    let v1 = t.vertices[1];
    let v2 = t.vertices[2];
    let normal = Vec3 {
        x: interpolate(q, v0.normal.x, v1.normal.x, v2.normal.x),
        y: interpolate(q, v0.normal.y, v1.normal.y, v2.normal.y),
        z: interpolate(q, v0.normal.z, v1.normal.z, v2.normal.z),
    };
    let d = diffuse(normal);
    let color = match &t.texture {
        Some(texture) => {
            let u = interpolate(q, v0.uv.x, v1.uv.x, v2.uv.x);
            let v = interpolate(q, v0.uv.y, v1.uv.y, v2.uv.y);
            let c = texture.argb_at_uvf(u, v);
            Vec3 { x: c.y, y: c.z, z: c.w }
        },
        None => Vec3 {
            x: interpolate(q, v0.color.x, v1.color.x, v2.color.x),
            y: interpolate(q, v0.color.y, v1.color.y, v2.color.y),
            z: interpolate(q, v0.color.z, v1.color.z, v2.color.z),
        },
    };
    to_argb8(255, light_channel(color.x, d), light_channel(color.y, d), light_channel(color.z, d))
}

/// The depth that stands for infinitely far: what a depth buffer is cleared
/// to. It lies beyond every depth that a fragment has.
pub const DEPTH_CLEAR: i64 = 0x7FFF_FFFF_FFFF_FFFF;

/// What a triangle contributes to one pixel.
#[derive(Debug, Copy, Clone, PartialEq, Eq, Structural)]
pub struct Fragment {
    /// The depth: a fixed-point scalar, held in 64 bits as the depth buffer
    /// holds it.
    pub depth: i64,
    /// The packed colour.
    pub color: u32,
}

/// The depth at a pixel: the perspective-correct value of the `z` of clip
/// space, interpolated as every attribute is. Smaller is nearer. It is zero
/// on the near plane, and negative where the triangle reaches behind that
/// plane: what culling and clipping leave of a triangle has no such part,
/// and a triangle that is drawn without them is drawn with the depths it has.
pub open spec fn depth_spec(t: Triangle, q: Weights) -> i64 {
    interpolate_spec(
        q,
        t.vertices[0].position.z as int,
        t.vertices[1].position.z as int,
        t.vertices[2].position.z as int,
    ) as i64
}

/// The fragment of a projected triangle at a pixel; nothing where the pixel's
/// centre lies outside the triangle.
pub open spec fn fragment_of(t: Triangle, s: Projected, px: int, py: int) -> Option<Fragment> {
    match weights_spec(s, px, py) {
        Some(q) => Some((Fragment { depth: depth_spec(t, q), color: shade_spec(t, q) })),
        None => None,
    }
}

/// The fragment of a triangle in clip space at a pixel of the viewport;
/// nothing where the triangle cannot be projected or does not cover the
/// pixel's centre.
pub open spec fn fragment_spec(t: Triangle, viewport: Viewport, px: int, py: int) -> Option<
    Fragment,
> {
    match project_spec(t, viewport) {
        Some(s) => fragment_of(t, s, px, py),
        None => None,
    }
}

/// Computes [`fragment_of`].
pub fn fragment(t: &Triangle, s: &Projected, px: usize, py: usize) -> (r: Option<Fragment>)
    requires
        s.wf(),
        px < MAX_DIMENSION,
        py < MAX_DIMENSION,
    ensures
        r == fragment_of(*t, *s, px as int, py as int),
{
    match weights(s, px, py) {
        Some(q) => {
            let depth = interpolate(
                &q,
                t.vertices[0].position.z,
                t.vertices[1].position.z,
                t.vertices[2].position.z,
            );
            Some(Fragment { depth: depth as i64, color: shade(t, &q) })
        },
        None => None,
    }
}

/// A fragment's depth lies between the smallest and the largest `z` of the
/// triangle's vertices: it is a fixed-point scalar, nearer than a cleared
/// depth buffer, and not negative where no vertex lies behind the near plane.
pub proof fn lemma_fragment_depth_between(t: Triangle, viewport: Viewport, px: int, py: int)
    requires
        viewport.wf(),
        0 <= px < viewport.width,
        0 <= py < viewport.height,
    ensures
        fragment_spec(t, viewport, px, py) matches Some(f) ==> {
            &&& min3(
                t.vertices[0].position.z as int,
                t.vertices[1].position.z as int,
                t.vertices[2].position.z as int,
            ) <= f.depth <= max3(
                t.vertices[0].position.z as int,
                t.vertices[1].position.z as int,
                t.vertices[2].position.z as int,
            )
            &&& f.depth < DEPTH_CLEAR
            &&& t.in_front() ==> f.depth >= 0
        },
{
    if let Some(s) = project_spec(t, viewport) {
        lemma_projected_wf(t, viewport);
        if let Some(q) = weights_spec(s, px, py) {
            lemma_weights_wf(s, px, py);
            lemma_interpolate_between(
                q,
                t.vertices[0].position.z as int,
                t.vertices[1].position.z as int,
                t.vertices[2].position.z as int,
            );
        }
    }
}

/// A projected triangle is well formed.
pub proof fn lemma_projected_wf(t: Triangle, viewport: Viewport)
    requires
        viewport.wf(),
    ensures
        project_spec(t, viewport) matches Some(s) ==> s.wf(),
{
    if let Some(s) = project_spec(t, viewport) {
        let w0 = t.vertices[0].position.w as int;
        let w1 = t.vertices[1].position.w as int;
        let w2 = t.vertices[2].position.w as int;
        let nearest = min3(w0, w1, w2);
        lemma_div_between(nearest * 0x8000_0000, w0, 1, 0x8000_0000);
        lemma_div_between(nearest * 0x8000_0000, w1, 1, 0x8000_0000);
        lemma_div_between(nearest * 0x8000_0000, w2, 1, 0x8000_0000);
        lemma_edge_bound(s.screen[0], s.screen[1], s.screen[2]);
    }
}

/// The perspective weights inside a well-formed projected triangle are well
/// formed: none is negative or beyond [`WEIGHT_LIMIT`], and one is positive.
pub proof fn lemma_weights_wf(s: Projected, px: int, py: int)
    requires
        s.wf(),
    ensures
        weights_spec(s, px, py) matches Some(q) ==> q.wf(),
        barycentric_spec(
            pixel_center(px, py),
            s.screen[0],
            s.screen[1],
            s.screen[2],
            s.area as int,
        ) matches Some(b) ==> {
            &&& 0 <= b.m0 * s.reciprocal[0] <= WEIGHT_LIMIT
            &&& 0 <= b.m1 * s.reciprocal[1] <= WEIGHT_LIMIT
            &&& 0 <= b.m2 * s.reciprocal[2] <= WEIGHT_LIMIT
        },
{
    let center = pixel_center(px, py);
    lemma_weights_bounded(s, center);
    if let Some(b) = barycentric_spec(
        center,
        s.screen[0],
        s.screen[1],
        s.screen[2],
        s.area as int,
    ) {
        let limit = 0x8000_0000_0000_0000;
        lemma_mul_bound(b.m0 as int, s.reciprocal[0] as int, limit, RECIPROCAL_ONE as int);
        lemma_mul_bound(b.m1 as int, s.reciprocal[1] as int, limit, RECIPROCAL_ONE as int);
        lemma_mul_bound(b.m2 as int, s.reciprocal[2] as int, limit, RECIPROCAL_ONE as int);
        lemma_weight_sign(b.m0 as int, s.reciprocal[0] as int);
        lemma_weight_sign(b.m1 as int, s.reciprocal[1] as int);
        lemma_weight_sign(b.m2 as int, s.reciprocal[2] as int);
    }
}

} // verus!
