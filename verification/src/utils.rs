//! Pixel addressing, the packed pixel format, interpolation and edge functions.
use vstd::prelude::*;
use crate::fixed::{clamp, div_floor, Ratio};
use crate::vector::{Vec2, Vec4};

verus! {

/// Width of the default viewport in pixels.
pub const WIDTH: usize = 640;

/// Height of the default viewport in pixels.
pub const HEIGHT: usize = 360;

/// Column and row of the `p`-th pixel of a row-major buffer `width` pixels wide.
pub fn index_to_coords(p: usize, width: usize) -> (r: (usize, usize))
    requires
        width > 0,
    ensures
        r.0 == p % width,
        r.1 == p / width,
{
    (p % width, p / width)
}

/// Position in a row-major buffer of the pixel in column `x` of row `y`.
pub fn coords_to_index(x: usize, y: usize, width: usize) -> (r: usize)
    requires
        x + y * width <= usize::MAX,
    ensures
        r == x + y * width,
{
    assert(y * width <= x + y * width) by (nonlinear_arith)
        requires
            x >= 0,
    ;
    x + y * width
}

/// A pixel's position and its column and row determine each other.
pub proof fn lemma_index_coords_round_trip(x: int, y: int, width: int)
    requires
        0 <= x < width,
        0 <= y,
    ensures
        (x + y * width) % width == x,
        (x + y * width) / width == y,
{
    vstd::arithmetic::div_mod::lemma_fundamental_div_mod_converse(x + y * width, width, y, x);
}

/// Column and row of a position lead back to that position.
pub proof fn lemma_coords_index_round_trip(p: int, width: int)
    requires
        0 <= p,
        0 < width,
    ensures
        p % width + (p / width) * width == p,
        0 <= p % width < width,
        0 <= p / width,
{
    vstd::arithmetic::div_mod::lemma_fundamental_div_mod(p, width);
    assert(width * (p / width) == (p / width) * width) by (nonlinear_arith);
    vstd::arithmetic::div_mod::lemma_div_pos_is_pos(p, width);
}

/// The packed pixel with alpha in the top byte, then red, green and blue.
pub open spec fn argb8(a: u8, r: u8, g: u8, b: u8) -> u32 {
    (a * 0x100_0000 + r * 0x1_0000 + g * 0x100 + b) as u32
}

/// The alpha, red, green and blue bytes of a packed pixel.
pub open spec fn argb8_parts(argb: u32) -> (u8, u8, u8, u8) {
    (
        (argb / 0x100_0000) as u8,
        ((argb / 0x1_0000) % 0x100) as u8,
        ((argb / 0x100) % 0x100) as u8,
        (argb % 0x100) as u8,
    )
}

/// Packs four channel bytes into one pixel.
pub fn to_argb8(a: u8, r: u8, g: u8, b: u8) -> (argb: u32)
    ensures
        argb == argb8(a, r, g, b),
{
    let mut argb: u32 = a as u32;
    assert((argb << 8) == argb * 0x100) by (bit_vector)
        requires
            argb < 0x100,
    ;
    argb = (argb << 8) + r as u32;
    assert((argb << 8) == argb * 0x100) by (bit_vector)
        requires
            argb < 0x1_0000,
    ;
    argb = (argb << 8) + g as u32;
    assert((argb << 8) == argb * 0x100) by (bit_vector)
        requires
            argb < 0x100_0000,
    ;
    argb = (argb << 8) + b as u32;
    argb
}

/// Splits a pixel into its alpha, red, green and blue bytes.
pub fn from_argb8(argb: u32) -> (r: (u8, u8, u8, u8))
    ensures
        r == argb8_parts(argb),
{
    assert((argb >> 24) == argb / 0x100_0000 && (argb >> 24) < 0x100) by (bit_vector);
    assert(((argb >> 16) as u8) == (argb / 0x1_0000) % 0x100) by (bit_vector);
    assert(((argb >> 8) as u8) == (argb / 0x100) % 0x100) by (bit_vector);
    assert((argb as u8) == argb % 0x100) by (bit_vector);
    let a: u8 = (argb >> 24) as u8;
    let r: u8 = (argb >> 16) as u8;
    let g: u8 = (argb >> 8) as u8;
    let b: u8 = argb as u8;
    (a, r, g, b)
}

/// Unpacking a packed pixel gives back the four bytes it was packed from.
pub proof fn lemma_pack_unpack(a: u8, r: u8, g: u8, b: u8)
    ensures
        argb8_parts(argb8(a, r, g, b)) == (a, r, g, b),
{
    let v: int = a * 0x100_0000 + r * 0x1_0000 + g * 0x100 + b;
    assert(argb8(a, r, g, b) == v);
    assert(v / 0x100_0000 == a);
    assert(v / 0x1_0000 == a * 0x100 + r);
    assert(v / 0x100 == a * 0x1_0000 + r * 0x100 + g);
}

/// Packing the four bytes of a pixel gives back that pixel.
pub proof fn lemma_unpack_pack(argb: u32)
    ensures
        argb8(
            argb8_parts(argb).0,
            argb8_parts(argb).1,
            argb8_parts(argb).2,
            argb8_parts(argb).3,
        ) == argb,
{
}

/// The byte of a colour channel given on the scale from 0 to 255: its whole
/// part, limited to that scale.
pub open spec fn channel_byte(c: i32) -> u8 {
    clamp(c as int / 65536, 0, 255) as u8
}

/// Computes [`channel_byte`].
pub fn to_channel_byte(c: i32) -> (r: u8)
    ensures
        r == channel_byte(c),
{
    if c < 0 {
        0
    } else if c >= 256 * 65536 {
        255
    } else {
        (c / 65536) as u8
    }
}

/// The point on the way from `start` to `end` at the fraction `num / den`,
/// rounded towards negative infinity.
pub open spec fn lerp_spec(start: int, end: int, num: int, den: int) -> int {
    start + ((end - start) * num) / den
}

/// A point between `start` and `end` lies between them.
pub proof fn lemma_lerp_between(start: int, end: int, num: int, den: int)
    requires
        0 <= num <= den,
        den > 0,
    ensures
        start <= end ==> start <= lerp_spec(start, end, num, den) <= end,
        end <= start ==> end <= lerp_spec(start, end, num, den) <= start,
        num == 0 ==> lerp_spec(start, end, num, den) == start,
        num == den ==> lerp_spec(start, end, num, den) == end,
{
    let d = end - start;
    let q = (d * num) / den;
    vstd::arithmetic::div_mod::lemma_fundamental_div_mod(d * num, den);
    let r = (d * num) % den;
    assert(den * q == q * den) by (nonlinear_arith);
    if d >= 0 {
        assert(0 <= d * num <= d * den) by (nonlinear_arith)
            requires
                0 <= num <= den,
                d >= 0,
        ;
        assert(0 <= q <= d) by (nonlinear_arith)
            requires
                0 <= q * den + r <= d * den,
                0 <= r < den,
        ;
    }
    if d <= 0 {
        assert(d * den <= d * num <= 0) by (nonlinear_arith)
            requires
                0 <= num <= den,
                d <= 0,
        ;
        assert(d <= q <= 0) by (nonlinear_arith)
            requires
                d * den <= q * den + r <= 0,
                0 <= r < den,
        ;
    }
    if num == 0 {
        assert(d * num == 0) by (nonlinear_arith)
            requires
                num == 0,
        ;
    }
    if num == den {
        vstd::arithmetic::div_mod::lemma_div_multiples_vanish(d, den);
    }
}

/// Going from `a` towards `b` by the fraction `-a / (b - a)`, written with
/// either sign of the denominator, ends exactly at zero.
pub proof fn lemma_lerp_reaches_zero(a: int, b: int)
    requires
        a != b,
    ensures
        lerp_spec(a, b, -a, b - a) == 0,
        lerp_spec(a, b, a, a - b) == 0,
{
    let d = b - a;
    assert(d * (-a) == (-a) * d) by (nonlinear_arith);
    assert(d * a == (-a) * (a - b)) by (nonlinear_arith)
        requires
            d == b - a,
    ;
    if d > 0 {
        vstd::arithmetic::div_mod::lemma_fundamental_div_mod_converse_div((-a) * d, d, -a, 0);
        assert(((-a) * (-d)) / (-d) == -a) by (nonlinear_arith)
            requires
                d > 0,
        ;
    } else {
        assert(((-a) * d) / d == -a) by (nonlinear_arith)
            requires
                d < 0,
        ;
        vstd::arithmetic::div_mod::lemma_fundamental_div_mod_converse_div((-a) * (-d), -d, -a, 0);
    }
}

/// Interpolates between two scalars at the fraction `alpha`.
pub fn lerp(start: i32, end: i32, alpha: Ratio) -> (r: i32)
    requires
        alpha.wf(),
    ensures
        r == lerp_spec(start as int, end as int, alpha.num as int, alpha.den as int),
{
    let d: i128 = end as i128 - start as i128;
    assert(-0x1_0000_0000 * 0x8000_0000_0000_0000 <= d * alpha.num <= 0x1_0000_0000
        * 0x8000_0000_0000_0000) by (nonlinear_arith)
        requires
            -0x1_0000_0000 <= d <= 0x1_0000_0000,
            0 <= alpha.num <= 0x8000_0000_0000_0000,
    ;
    let q: i128 = div_floor(d * (alpha.num as i128), alpha.den as i128);
    proof {
        lemma_lerp_between(start as int, end as int, alpha.num as int, alpha.den as int);
    }
    (start as i128 + q) as i32
}

/// Sets every pixel of `buffer` to the packed form of `color`, whose channels
/// are given on the scale from 0 to 255 with alpha in `w`.
pub fn clear_screen(buffer: &mut Vec<u32>, color: Vec4)
    ensures
        final(buffer)@.len() == old(buffer)@.len(),
        forall|i: int|
            0 <= i < final(buffer)@.len() ==> final(buffer)@[i] == argb8(
                channel_byte(color.w),
                channel_byte(color.x),
                channel_byte(color.y),
                channel_byte(color.z),
            ),
{
    let pixel = to_argb8(
        to_channel_byte(color.w),
        to_channel_byte(color.x),
        to_channel_byte(color.y),
        to_channel_byte(color.z),
    );
    let n = buffer.len();
    let mut i: usize = 0;
    while i < n
        invariant
            i <= n,
            buffer@.len() == n,
            forall|j: int| 0 <= j < i ==> buffer@[j] == pixel,
        decreases n - i,
    {
        buffer[i] = pixel;
        i += 1;
    }
}

/// Sets every element of `buffer` to `value`.
pub fn clear_buffer<T>(buffer: &mut [T], value: T) where T: Copy
    ensures
        final(buffer)@.len() == old(buffer)@.len(),
        forall|i: int| 0 <= i < final(buffer)@.len() ==> final(buffer)@[i] == value,
{
    let n = buffer.len();
    let mut i: usize = 0;
    while i < n
        invariant
            i <= n,
            buffer@.len() == n,
            forall|j: int| 0 <= j < i ==> buffer@[j] == value,
        decreases n - i,
    {
        buffer[i] = value;
        i += 1;
    }
}

/// The value that corresponds in the range from `b1` to `b2` to `v` in the
/// range from `a1` to `a2`.
pub open spec fn map_to_range_spec(v: int, a1: int, a2: int, b1: int, b2: int) -> int {
    b1 + ((v - a1) * (b2 - b1)) / (a2 - a1)
}

/// Maps `v` linearly from the range `a1..a2` to the range `b1..b2`.
pub fn map_to_range(v: i64, a1: i64, a2: i64, b1: i64, b2: i64) -> (r: i64)
    requires
        a1 != a2,
        i64::MIN <= v - a1 <= i64::MAX,
        i64::MIN <= b2 - b1 <= i64::MAX,
        i64::MIN <= map_to_range_spec(v as int, a1 as int, a2 as int, b1 as int, b2 as int)
            <= i64::MAX,
    ensures
        r == map_to_range_spec(v as int, a1 as int, a2 as int, b1 as int, b2 as int),
{
    let dv: i128 = v as i128 - a1 as i128;
    let db: i128 = b2 as i128 - b1 as i128;
    let da: i128 = a2 as i128 - a1 as i128;
    assert(-0x8000_0000_0000_0000 * 0x8000_0000_0000_0000 <= dv * db <= 0x8000_0000_0000_0000
        * 0x8000_0000_0000_0000) by (nonlinear_arith)
        requires
            -0x8000_0000_0000_0000 <= dv <= 0x8000_0000_0000_0000,
            -0x8000_0000_0000_0000 <= db <= 0x8000_0000_0000_0000,
    ;
    let n: i128 = dv * db;
    let q: i128 = if da > 0 {
        div_floor(n, da)
    } else {
        proof {
            lemma_div_by_negative(n as int, da as int);
        }
        -div_floor(n, -da)
    };
    (b1 as i128 + q) as i64
}

/// A quotient by a negative divisor is the negative of the quotient by the
/// divisor's magnitude.
pub proof fn lemma_div_by_negative(n: int, d: int)
    requires
        d < 0,
    ensures
        n / d == -(n / (-d)),
{
    let q = n / (-d);
    let r = n % (-d);
    vstd::arithmetic::div_mod::lemma_fundamental_div_mod(n, -d);
    assert(n / d == -q) by (nonlinear_arith)
        requires
            d < 0,
            n == (-d) * q + r,
            0 <= r < -d,
    ;
}

/// The edge function of the directed line from `v0` to `v1` at the point `p`:
/// twice the signed area of the triangle `v0`, `v1`, `p`.
pub open spec fn edge_spec(v1: Vec2, v0: Vec2, p: Vec2) -> int {
    (p.x - v0.x) * (v1.y - v0.y) - (p.y - v0.y) * (v1.x - v0.x)
}

/// Computes [`edge_spec`].
pub fn edge_fn(v1: Vec2, v0: Vec2, p: Vec2) -> (r: i128)
    ensures
        r == edge_spec(v1, v0, p),
{
    let ax: i128 = p.x as i128 - v0.x as i128;
    let ay: i128 = v1.y as i128 - v0.y as i128;
    let bx: i128 = p.y as i128 - v0.y as i128;
    let by: i128 = v1.x as i128 - v0.x as i128;
    proof {
        lemma_mul_bound(ax as int, ay as int, 0x1_0000_0000, 0x1_0000_0000);
        lemma_mul_bound(bx as int, by as int, 0x1_0000_0000, 0x1_0000_0000);
    }
    ax * ay - bx * by
}

/// A product of numbers of magnitude at most `ma` and `mb` has magnitude at
/// most `ma * mb`.
pub proof fn lemma_mul_bound(a: int, b: int, ma: int, mb: int)
    by (nonlinear_arith)
    requires
        -ma <= a <= ma,
        -mb <= b <= mb,
    ensures
        -(ma * mb) <= a * b <= ma * mb,
{
}

/// A quotient by a positive divisor lies between two bounds when the dividend
/// lies between their multiples by the divisor.
pub proof fn lemma_div_between(n: int, d: int, lo: int, hi: int)
    requires
        d > 0,
        lo * d <= n <= hi * d,
    ensures
        lo <= n / d <= hi,
{
    vstd::arithmetic::div_mod::lemma_fundamental_div_mod(n, d);
    let q = n / d;
    let r = n % d;
    assert(lo <= q <= hi) by (nonlinear_arith)
        requires
            n == d * q + r,
            0 <= r < d,
            lo * d <= n <= hi * d,
    ;
}

/// The barycentric weights of a point with respect to a triangle, each as a
/// multiple of one over twice the triangle's unsigned area.
#[derive(Clone, Copy, Debug, PartialEq, Eq, Structural)]
pub struct Barycentric {
    pub m0: i128,
    pub m1: i128,
    pub m2: i128,
}

/// `e` with the sign that makes it count in the direction of `area`.
pub open spec fn toward(area: int, e: int) -> int {
    if area > 0 {
        e
    } else {
        -e
    }
}

/// The weights of `point` in the triangle `v0`, `v1`, `v2` whose doubled signed
/// area is `area`, where the point lies in the triangle or on its border; nothing
/// where it lies outside or the area is zero.
pub open spec fn barycentric_spec(point: Vec2, v0: Vec2, v1: Vec2, v2: Vec2, area: int) -> Option<
    Barycentric,
> {
    let m0 = toward(area, edge_spec(v1, v2, point));
    let m1 = toward(area, edge_spec(v2, v0, point));
    let m2 = toward(area, edge_spec(v0, v1, point));
    if area != 0 && m0 >= 0 && m1 >= 0 && m2 >= 0 {
        Some((Barycentric { m0: m0 as i128, m1: m1 as i128, m2: m2 as i128 }))
    } else {
        None
    }
}

/// Computes [`barycentric_spec`].
pub fn barycentric_coordinates(point: Vec2, v0: Vec2, v1: Vec2, v2: Vec2, area: i128) -> (r:
    Option<Barycentric>)
    ensures
        r == barycentric_spec(point, v0, v1, v2, area as int),
{
    if area == 0 {
        return None;
    }
    let e0 = edge_fn(v1, v2, point);
    let e1 = edge_fn(v2, v0, point);
    let e2 = edge_fn(v0, v1, point);
    proof {
        lemma_edge_bound(v1, v2, point);
        lemma_edge_bound(v2, v0, point);
        lemma_edge_bound(v0, v1, point);
    }
    let (m0, m1, m2) = if area > 0 {
        (e0, e1, e2)
    } else {
        (-e0, -e1, -e2)
    };
    if m0 >= 0 && m1 >= 0 && m2 >= 0 {
        Some(Barycentric { m0, m1, m2 })
    } else {
        None
    }
}

/// An edge function of points with 32-bit coordinates stays far inside 128 bits.
pub proof fn lemma_edge_bound(v1: Vec2, v0: Vec2, p: Vec2)
    ensures
        -0x2_0000_0000_0000_0000 <= edge_spec(v1, v0, p) <= 0x2_0000_0000_0000_0000,
{
    lemma_mul_bound(p.x - v0.x, v1.y - v0.y, 0x1_0000_0000, 0x1_0000_0000);
    lemma_mul_bound(p.y - v0.y, v1.x - v0.x, 0x1_0000_0000, 0x1_0000_0000);
}

/// The three edge functions of a triangle add up, at every point, to the
/// triangle's doubled signed area: barycentric weights sum to one.
pub proof fn lemma_edges_sum_to_area(p: Vec2, v0: Vec2, v1: Vec2, v2: Vec2)
    ensures
        edge_spec(v1, v2, p) + edge_spec(v2, v0, p) + edge_spec(v0, v1, p) == edge_spec(
            v0,
            v1,
            v2,
        ),
{
    lemma_edges_sum(
        p.x as int,
        p.y as int,
        v0.x as int,
        v0.y as int,
        v1.x as int,
        v1.y as int,
        v2.x as int,
        v2.y as int,
    );
}

proof fn lemma_edges_sum(px: int, py: int, ax: int, ay: int, bx: int, by: int, cx: int, cy: int)
    ensures
        ((px - cx) * (by - cy) - (py - cy) * (bx - cx)) + ((px - ax) * (cy - ay) - (py - ay) * (cx
            - ax)) + ((px - bx) * (ay - by) - (py - by) * (ax - bx)) == (cx - bx) * (ay - by) - (cy
            - by) * (ax - bx),
{
    lemma_expand(px, cx, by, cy);
    lemma_expand(py, cy, bx, cx);
    lemma_expand(px, ax, cy, ay);
    lemma_expand(py, ay, cx, ax);
    lemma_expand(px, bx, ay, by);
    lemma_expand(py, by, ax, bx);
    lemma_expand(cx, bx, ay, by);
    lemma_expand(cy, by, ax, bx);
}

/// The product of two differences, multiplied out.
proof fn lemma_expand(a: int, b: int, c: int, d: int)
    by (nonlinear_arith)
    ensures
        (a - b) * (c - d) == a * c - a * d - b * c + b * d,
        a * c == c * a,
        a * d == d * a,
        b * c == c * b,
        b * d == d * b,
{
}

/// At a vertex of the triangle the edge function of the opposite edge is the
/// whole doubled area and the two others vanish.
pub proof fn lemma_edges_at_vertices(v0: Vec2, v1: Vec2, v2: Vec2)
    ensures
        edge_spec(v1, v2, v0) == edge_spec(v0, v1, v2),
        edge_spec(v2, v0, v0) == 0,
        edge_spec(v0, v1, v0) == 0,
        edge_spec(v1, v2, v1) == 0,
        edge_spec(v2, v0, v1) == edge_spec(v0, v1, v2),
        edge_spec(v0, v1, v1) == 0,
        edge_spec(v1, v2, v2) == 0,
        edge_spec(v2, v0, v2) == 0,
{
    lemma_edges_sum_to_area(v0, v0, v1, v2);
    lemma_edges_sum_to_area(v1, v0, v1, v2);
    lemma_edge_degenerate(v0.x as int, v0.y as int, v2.x as int, v2.y as int);
    lemma_edge_degenerate(v0.x as int, v0.y as int, v1.x as int, v1.y as int);
    lemma_edge_degenerate(v1.x as int, v1.y as int, v2.x as int, v2.y as int);
    lemma_edge_degenerate(v1.x as int, v1.y as int, v0.x as int, v0.y as int);
    lemma_edge_degenerate(v2.x as int, v2.y as int, v1.x as int, v1.y as int);
    lemma_edge_degenerate(v2.x as int, v2.y as int, v0.x as int, v0.y as int);
}

proof fn lemma_edge_degenerate(px: int, py: int, qx: int, qy: int)
    by (nonlinear_arith)
    ensures
        (px - qx) * (py - qy) - (py - qy) * (px - qx) == 0,
        (px - px) * (qy - py) - (py - py) * (qx - px) == 0,
{
}

/// At the centroid each edge function is a third of the doubled area.
pub proof fn lemma_edges_at_centroid(c: Vec2, v0: Vec2, v1: Vec2, v2: Vec2)
    requires
        3 * c.x == v0.x + v1.x + v2.x,
        3 * c.y == v0.y + v1.y + v2.y,
    ensures
        3 * edge_spec(v1, v2, c) == edge_spec(v0, v1, v2),
        3 * edge_spec(v2, v0, c) == edge_spec(v0, v1, v2),
        3 * edge_spec(v0, v1, c) == edge_spec(v0, v1, v2),
{
    lemma_edges_centroid(
        c.x as int,
        c.y as int,
        v0.x as int,
        v0.y as int,
        v1.x as int,
        v1.y as int,
        v2.x as int,
        v2.y as int,
    );
}

proof fn lemma_edges_centroid(
    px: int,
    py: int,
    ax: int,
    ay: int,
    bx: int,
    by: int,
    cx: int,
    cy: int,
)
    requires
        3 * px == ax + bx + cx,
        3 * py == ay + by + cy,
    ensures
        3 * ((px - cx) * (by - cy) - (py - cy) * (bx - cx)) == (cx - bx) * (ay - by) - (cy - by) * (
        ax - bx),
        3 * ((px - ax) * (cy - ay) - (py - ay) * (cx - ax)) == (cx - bx) * (ay - by) - (cy - by) * (
        ax - bx),
        3 * ((px - bx) * (ay - by) - (py - by) * (ax - bx)) == (cx - bx) * (ay - by) - (cy - by) * (
        ax - bx),
{
    lemma_triple(px - cx, by - cy);
    lemma_triple(py - cy, bx - cx);
    lemma_triple(px - ax, cy - ay);
    lemma_triple(py - ay, cx - ax);
    lemma_triple(px - bx, ay - by);
    lemma_triple(py - by, ax - bx);
    lemma_expand(ax + bx - 2 * cx, 0, by, cy);
    lemma_expand(ay + by - 2 * cy, 0, bx, cx);
    lemma_expand(bx + cx - 2 * ax, 0, cy, ay);
    lemma_expand(by + cy - 2 * ay, 0, cx, ax);
    lemma_expand(ax + cx - 2 * bx, 0, ay, by);
    lemma_expand(ay + cy - 2 * by, 0, ax, bx);
    lemma_expand(cx, bx, ay, by);
    lemma_expand(cy, by, ax, bx);
    lemma_spread(ax, bx, cx, by);
    lemma_spread(ax, bx, cx, cy);
    lemma_spread(ay, by, cy, bx);
    lemma_spread(ay, by, cy, cx);
    lemma_spread(bx, cx, ax, cy);
    lemma_spread(bx, cx, ax, ay);
    lemma_spread(by, cy, ay, cx);
    lemma_spread(by, cy, ay, ax);
    lemma_spread(ax, cx, bx, ay);
    lemma_spread(ax, cx, bx, by);
    lemma_spread(ay, cy, by, ax);
    lemma_spread(ay, cy, by, bx);
}

proof fn lemma_triple(a: int, b: int)
    by (nonlinear_arith)
    ensures
        3 * (a * b) == (3 * a) * b,
{
}

proof fn lemma_spread(a: int, b: int, c: int, k: int)
    by (nonlinear_arith)
    ensures
        (a + b - 2 * c) * k == a * k + b * k - 2 * (c * k),
        a * k == k * a,
        b * k == k * b,
        c * k == k * c,
{
}

/// Of a triangle that is not degenerate: the weights of every point inside sum
/// to the doubled unsigned area, and each vertex has that area as one weight and
/// zero as the two others.
pub proof fn lemma_barycentric_weights(p: Vec2, v0: Vec2, v1: Vec2, v2: Vec2)
    requires
        edge_spec(v0, v1, v2) != 0,
    ensures
        ({
            let area = edge_spec(v0, v1, v2);
            let total = if area > 0 {
                area
            } else {
                -area
            };
            &&& barycentric_spec(p, v0, v1, v2, area) matches Some(b) ==> b.m0 + b.m1 + b.m2
                == total
            &&& barycentric_spec(v0, v0, v1, v2, area) == Some(
                (Barycentric { m0: total as i128, m1: 0, m2: 0 }),
            )
            &&& barycentric_spec(v1, v0, v1, v2, area) == Some(
                (Barycentric { m0: 0, m1: total as i128, m2: 0 }),
            )
            &&& barycentric_spec(v2, v0, v1, v2, area) == Some(
                (Barycentric { m0: 0, m1: 0, m2: total as i128 }),
            )
        }),
{
    lemma_edges_sum_to_area(p, v0, v1, v2);
    lemma_edges_sum_to_area(v2, v0, v1, v2);
    lemma_edges_at_vertices(v0, v1, v2);
    lemma_edge_bound(v1, v2, p);
    lemma_edge_bound(v2, v0, p);
    lemma_edge_bound(v0, v1, p);
    lemma_edge_bound(v0, v1, v2);
}

} // verus!
