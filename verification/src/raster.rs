//! Rasterization: drawing a triangle in clip space into the colour and depth
//! buffers of a viewport, pixel by pixel, under the depth test.
use vstd::prelude::*;
use crate::fixed::min2;
use crate::fragment::{
    fragment,
    fragment_spec,
    lemma_projected_wf,
    project,
    project_spec,
    weights_spec,
    Fragment,
    Projected,
};
use crate::geometry::Triangle;
use crate::screen::{
    lemma_inside_within_box,
    lemma_pixel_of_index,
    pixel_center,
    screen_box_spec,
    triangle_screen_bounding_box,
    Viewport,
    AABB,
    MAX_DIMENSION,
    SUBPIXEL,
};
use crate::texture::lemma_index_in_range;
use crate::utils::{
    coords_to_index,
    lemma_coords_index_round_trip,
    lemma_div_between,
    lemma_index_coords_round_trip,
    lemma_mul_bound,
    map_to_range_spec,
};
use crate::vector::Vec4;

verus! {

/// The colour and depth of a pixel after a fragment has met the depth test:
/// the fragment's where it is nearer than what the pixel held, else unchanged.
pub open spec fn depth_test(f: Option<Fragment>, color: u32, depth: i64) -> (u32, i64) {
    match f {
        Some(f) => if f.depth < depth {
            (f.color, f.depth)
        } else {
            (color, depth)
        },
        None => (color, depth),
    }
}

/// The colour buffer and the depth buffer of a viewport, row by row.
pub struct Frame {
    pub colors: Seq<u32>,
    pub depths: Seq<i64>,
}

/// The fragment of a triangle at the pixel that has the position `i` in the
/// buffers of the viewport.
pub open spec fn fragment_at(t: Triangle, viewport: Viewport, i: int) -> Option<Fragment> {
    fragment_spec(t, viewport, i % (viewport.width as int), i / (viewport.width as int))
}

/// The frame after a triangle in clip space has been drawn into it: every
/// pixel has met the triangle's fragment there, if any, in the depth test.
pub open spec fn draw_spec(t: Triangle, viewport: Viewport, frame: Frame) -> Frame {
    Frame {
        colors: Seq::new(
            frame.colors.len(),
            |i: int| depth_test(fragment_at(t, viewport, i), frame.colors[i], frame.depths[i]).0,
        ),
        depths: Seq::new(
            frame.depths.len(),
            |i: int| depth_test(fragment_at(t, viewport, i), frame.colors[i], frame.depths[i]).1,
        ),
    }
}

/// The pixel in column `px` of row `py` lies in the columns and rows that the
/// box touches.
pub open spec fn box_covers(bb: AABB, px: int, py: int) -> bool {
    &&& bb.min.x / SUBPIXEL <= px <= bb.max.x / SUBPIXEL
    &&& bb.min.y / SUBPIXEL <= py <= bb.max.y / SUBPIXEL
}

/// A pixel of the viewport whose centre a projected triangle covers lies in
/// the triangle's screen bounding box.
proof fn lemma_fragment_within_box(s: Projected, viewport: Viewport, px: int, py: int)
    requires
        s.wf(),
        viewport.wf(),
        0 <= px < viewport.width,
        0 <= py < viewport.height,
        weights_spec(s, px, py) is Some,
    ensures
        screen_box_spec(s.screen, viewport) matches Some(bb) && box_covers(bb, px, py),
{
    lemma_inside_within_box(pixel_center(px, py), s.screen[0], s.screen[1], s.screen[2]);
    assert(s.screen =~= [s.screen[0], s.screen[1], s.screen[2]]);
}

/// The scan has passed the pixel at the position `i`: the scan goes through
/// the columns from `x0` on, and in each column through the rows from `y0`
/// to `y1`, and has come to row `y` of column `x`.
pub open spec fn scanned(i: int, width: int, x0: int, x: int, y0: int, y: int, y1: int) -> bool {
    let px = i % width;
    let py = i / width;
    (x0 <= px < x && y0 <= py <= y1) || (px == x && y0 <= py < y)
}

/// The colour and depth of the pixel at the position `i` while the triangle
/// is drawn: those of the finished frame where the scan has passed the pixel,
/// those of the frame before where it has not.
pub open spec fn during_draw(
    t: Triangle,
    viewport: Viewport,
    before: Frame,
    i: int,
    passed: bool,
) -> (u32, i64) {
    if passed {
        depth_test(fragment_at(t, viewport, i), before.colors[i], before.depths[i])
    } else {
        (before.colors[i], before.depths[i])
    }
}

impl Triangle {
    /// Draws a triangle in clip space: every pixel whose centre the triangle
    /// covers takes the triangle's colour and depth there where that depth
    /// is nearer than the one the pixel holds.
    ///
    /// A triangle is not drawn at all where a vertex has a `w` that is not
    /// positive, where its screen points lie on one line, or where a vertex
    /// lies further than [`SCREEN_LIMIT`](crate::screen::SCREEN_LIMIT) from the
    /// viewport's corner, four million pixels: such a triangle is skipped
    /// whole, and not cut down to the viewport as one that reaches less far is.
    pub fn draw_clipped(
        &self,
        buffer: &mut [u32],
        depth_buffer: &mut [i64],
        viewport_size: Viewport,
    )
        requires
            viewport_size.wf(),
            old(buffer)@.len() == viewport_size.area(),
            old(depth_buffer)@.len() == viewport_size.area(),
        ensures
            (Frame { colors: final(buffer)@, depths: final(depth_buffer)@ }) == draw_spec(
                *self,
                viewport_size,
                (Frame { colors: old(buffer)@, depths: old(depth_buffer)@ }),
            ),
    {
        let ghost before = Frame { colors: buffer@, depths: depth_buffer@ };
        let ghost after = draw_spec(*self, viewport_size, before);
        let ghost area = viewport_size.area();
        let width = viewport_size.width;
        let s = match project(self, viewport_size) {
            Some(s) => s,
            None => {
                assert(after.colors =~= before.colors);
                assert(after.depths =~= before.depths);
                return ;
            },
        };
        let bb = match triangle_screen_bounding_box(&s.screen, viewport_size) {
            Some(bb) => bb,
            None => {
                assert forall|i: int| 0 <= i < area implies #[trigger] fragment_at(
                    *self,
                    viewport_size,
                    i,
                ) is None by {
                    lemma_pixel_of_index(i, viewport_size);
                    if weights_spec(s, i % (width as int), i / (width as int)) is Some {
                        lemma_fragment_within_box(
                            s,
                            viewport_size,
                            i % (width as int),
                            i / (width as int),
                        );
                    }
                }
                assert(after.colors =~= before.colors);
                assert(after.depths =~= before.depths);
                return ;
            },
        };
        let x0 = (bb.min.x / SUBPIXEL) as usize;
        let x1 = (bb.max.x / SUBPIXEL) as usize;
        let y0 = (bb.min.y / SUBPIXEL) as usize;
        let y1 = (bb.max.y / SUBPIXEL) as usize;
        let count = buffer.len();
        assert(area == count);
        let mut x = x0;
        while x <= x1
            invariant
                viewport_size.wf(),
                width == viewport_size.width,
                area == viewport_size.area(),
                area <= usize::MAX,
                s.wf(),
                project_spec(*self, viewport_size) == Some(s),
                x0 <= x,
                x1 < width,
                y1 < viewport_size.height,
                before.colors.len() == area,
                before.depths.len() == area,
                buffer@.len() == area,
                depth_buffer@.len() == area,
                forall|i: int|
                    0 <= i < area ==> #[trigger] buffer@[i] == during_draw(
                        *self,
                        viewport_size,
                        before,
                        i,
                        scanned(
                            i,
                            width as int,
                            x0 as int,
                            x as int,
                            y0 as int,
                            y0 as int,
                            y1 as int,
                        ),
                    ).0,
                forall|i: int|
                    0 <= i < area ==> #[trigger] depth_buffer@[i] == during_draw(
                        *self,
                        viewport_size,
                        before,
                        i,
                        scanned(
                            i,
                            width as int,
                            x0 as int,
                            x as int,
                            y0 as int,
                            y0 as int,
                            y1 as int,
                        ),
                    ).1,
            decreases x1 + 1 - x,
        {
            let mut y = y0;
            while y <= y1
                invariant
                    viewport_size.wf(),
                    width == viewport_size.width,
                    area == viewport_size.area(),
                    area <= usize::MAX,
                    s.wf(),
                    project_spec(*self, viewport_size) == Some(s),
                    x0 <= x <= x1,
                    x1 < width,
                    y0 <= y,
                    y <= y1 + 1 || y == y0,
                    y1 < viewport_size.height,
                    before.colors.len() == area,
                    before.depths.len() == area,
                    buffer@.len() == area,
                    depth_buffer@.len() == area,
                    forall|i: int|
                        0 <= i < area ==> #[trigger] buffer@[i] == during_draw(
                            *self,
                            viewport_size,
                            before,
                            i,
                            scanned(
                            i,
                            width as int,
                            x0 as int,
                            x as int,
                            y0 as int,
                            y as int,
                            y1 as int,
                        ),
                        ).0,
                    forall|i: int|
                        0 <= i < area ==> #[trigger] depth_buffer@[i] == during_draw(
                            *self,
                            viewport_size,
                            before,
                            i,
                            scanned(
                            i,
                            width as int,
                            x0 as int,
                            x as int,
                            y0 as int,
                            y as int,
                            y1 as int,
                        ),
                        ).1,
                decreases y1 + 1 - y,
            {
                proof {
                    lemma_index_in_range(
                        x as int,
                        y as int,
                        width as int,
                        viewport_size.height as int,
                    );
                    lemma_index_coords_round_trip(x as int, y as int, width as int);
                    // the scan passes this pixel and no other
                    assert forall|i: int| 0 <= i < area implies #[trigger] scanned(
                        i,
                        width as int,
                        x0 as int,
                        x as int,
                        y0 as int,
                        y + 1,
                        y1 as int,
                    ) == (scanned(
                        i,
                        width as int,
                        x0 as int,
                        x as int,
                        y0 as int,
                        y as int,
                        y1 as int,
                    ) || i == x + y * width) by {
                        lemma_coords_index_round_trip(i, width as int);
                    }
                }
                let pixel_id = coords_to_index(x, y, width);
                match fragment(self, &s, x, y) {
                    Some(f) => {
                        if f.depth < depth_buffer[pixel_id] {
                            depth_buffer[pixel_id] = f.depth;
                            buffer[pixel_id] = f.color;
                        }
                    },
                    None => {},
                }
                y += 1;
            }
            x += 1;
        }
        proof {
            assert forall|i: int| 0 <= i < area implies buffer@[i] == after.colors[i]
                && depth_buffer@[i] == after.depths[i] by {
                lemma_pixel_of_index(i, viewport_size);
                let px = i % (width as int);
                let py = i / (width as int);
                if weights_spec(s, px, py) is Some {
                    lemma_fragment_within_box(s, viewport_size, px, py);
                }
            }
            assert(after.colors =~= buffer@);
            assert(after.depths =~= depth_buffer@);
        }
    }
}

/// Two triangles that differ in depth at every pixel that both cover leave
/// the same frame in whichever order they are drawn, and at every pixel the
/// nearest of the two fragments and what the frame held wins.
pub proof fn lemma_draw_order_independent(
    a: Triangle,
    b: Triangle,
    viewport: Viewport,
    frame: Frame,
)
    requires
        frame.colors.len() == frame.depths.len(),
        forall|i: int|
            0 <= i < frame.colors.len() ==> match (
                #[trigger] fragment_at(a, viewport, i),
                #[trigger] fragment_at(b, viewport, i),
            ) {
                (Some(fa), Some(fb)) => fa.depth != fb.depth,
                _ => true,
            },
    ensures
        draw_spec(a, viewport, draw_spec(b, viewport, frame)) == draw_spec(
            b,
            viewport,
            draw_spec(a, viewport, frame),
        ),
        forall|i: int|
            0 <= i < frame.colors.len() ==> (#[trigger] draw_spec(
                a,
                viewport,
                draw_spec(b, viewport, frame),
            ).depths[i]) == nearest(
                fragment_at(a, viewport, i),
                fragment_at(b, viewport, i),
                frame.depths[i],
            ),
{
    let ab = draw_spec(a, viewport, draw_spec(b, viewport, frame));
    let ba = draw_spec(b, viewport, draw_spec(a, viewport, frame));
    assert forall|i: int| 0 <= i < frame.colors.len() implies ab.colors[i] == ba.colors[i]
        && ab.depths[i] == ba.depths[i] by {
        let fa = fragment_at(a, viewport, i);
        let fb = fragment_at(b, viewport, i);
        let after_a = depth_test(fa, frame.colors[i], frame.depths[i]);
        let after_b = depth_test(fb, frame.colors[i], frame.depths[i]);
        assert(draw_spec(a, viewport, frame).colors[i] == after_a.0);
        assert(draw_spec(a, viewport, frame).depths[i] == after_a.1);
        assert(draw_spec(b, viewport, frame).colors[i] == after_b.0);
        assert(draw_spec(b, viewport, frame).depths[i] == after_b.1);
    }
    assert(ab.colors =~= ba.colors);
    assert(ab.depths =~= ba.depths);
}

/// The smallest depth among those of two fragments, where there are any, and
/// the depth that a pixel held.
pub open spec fn nearest(fa: Option<Fragment>, fb: Option<Fragment>, depth: i64) -> i64 {
    let da = match fa {
        Some(f) => min2(f.depth as int, depth as int),
        None => depth as int,
    };
    match fb {
        Some(f) => min2(f.depth as int, da) as i64,
        None => da as i64,
    }
}

/// Drawing a triangle keeps the size of the frame, moves no pixel further
/// away, and changes a pixel only where the triangle has a fragment that is
/// nearer than what the pixel held.
pub proof fn lemma_draw_only_nearer(t: Triangle, viewport: Viewport, frame: Frame)
    requires
        frame.colors.len() == frame.depths.len(),
    ensures
        draw_spec(t, viewport, frame).colors.len() == frame.colors.len(),
        draw_spec(t, viewport, frame).depths.len() == frame.depths.len(),
        forall|i: int|
            0 <= i < frame.depths.len() ==> (#[trigger] draw_spec(t, viewport, frame).depths[i])
                <= frame.depths[i],
        forall|i: int|
            0 <= i < frame.depths.len() && !(fragment_at(t, viewport, i) matches Some(f)
                && f.depth < frame.depths[i]) ==> (#[trigger] draw_spec(
                t,
                viewport,
                frame,
            ).depths[i]) == frame.depths[i] && draw_spec(t, viewport, frame).colors[i]
                == frame.colors[i],
{
}

/// All three vertices lie beyond the same one of the four side planes of the
/// view volume.
pub open spec fn beside_view_volume(t: Triangle) -> bool {
    ||| t.all_vertices(|p: Vec4| p.x > p.w)
    ||| t.all_vertices(|p: Vec4| p.x < -p.w)
    ||| t.all_vertices(|p: Vec4| p.y > p.w)
    ||| t.all_vertices(|p: Vec4| p.y < -p.w)
}

/// The screen coordinate of a position beyond a side plane lies off the
/// viewport: at or beyond its far border for a coordinate larger than `w`,
/// before its near border for one smaller than `-w`.
proof fn lemma_screen_coordinate_beside(v: int, w: int, size: int)
    requires
        w > 0,
        size > 0,
    ensures
        v > w ==> map_to_range_spec(v, -w, w, 0, size) >= size,
        v < -w ==> map_to_range_spec(v, -w, w, 0, size) < 0,
{
    let n = (v + w) * (size - 0);
    let d = w - (-w);
    if v > w {
        assert(size * d <= n) by (nonlinear_arith)
            requires
                n == (v + w) * (size - 0),
                d == w - (-w),
                v > w,
                size > 0,
        ;
        assert(n <= n * d) by (nonlinear_arith)
            requires
                n >= 0,
                d >= 1,
        ;
        lemma_div_between(n, d, size, n);
    }
    if v < -w {
        assert(n < 0) by (nonlinear_arith)
            requires
                n == (v + w) * (size - 0),
                v + w < 0,
                size > 0,
        ;
        vstd::arithmetic::div_mod::lemma_fundamental_div_mod(n, d);
        let q = n / d;
        let r = n % d;
        assert(q < 0) by (nonlinear_arith)
            requires
                n == d * q + r,
                0 <= r < d,
                n < 0,
        ;
    }
}

/// A triangle that lies wholly beyond one side plane of the view volume
/// covers no pixel of the viewport: culling it changes no picture.
pub proof fn lemma_beside_view_volume_is_invisible(
    t: Triangle,
    viewport: Viewport,
    px: int,
    py: int,
)
    requires
        viewport.wf(),
        0 <= px < viewport.width,
        0 <= py < viewport.height,
        beside_view_volume(t),
    ensures
        fragment_spec(t, viewport, px, py) is None,
{
    if let Some(s) = project_spec(t, viewport) {
        if weights_spec(s, px, py) is Some {
            lemma_projected_wf(t, viewport);
            let p0 = t.vertices[0].position;
            let p1 = t.vertices[1].position;
            let p2 = t.vertices[2].position;
            let width = viewport.width * SUBPIXEL;
            let height = viewport.height * SUBPIXEL;
            lemma_screen_coordinate_beside(p0.x as int, p0.w as int, width);
            lemma_screen_coordinate_beside(p1.x as int, p1.w as int, width);
            lemma_screen_coordinate_beside(p2.x as int, p2.w as int, width);
            lemma_screen_coordinate_beside(-p0.y, p0.w as int, height);
            lemma_screen_coordinate_beside(-p1.y, p1.w as int, height);
            lemma_screen_coordinate_beside(-p2.y, p2.w as int, height);
            lemma_inside_within_box(pixel_center(px, py), s.screen[0], s.screen[1], s.screen[2]);
        }
    }
}

} // verus!
