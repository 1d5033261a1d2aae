use rusterizer::{
    fragment, interpolate, project, shade, to_screen, triangle_screen_bounding_box, weights,
    Fragment, Texture, Triangle, Vec2, Vec3, Vec4, Vertex, Viewport, Weights, AABB, AMBIENT,
    DEPTH_CLEAR,
    MAX_DIMENSION, ONE, SCREEN_LIMIT, SUBPIXEL,
};
use std::sync::Arc;

const CLEAR: u32 = 0x00CC_FFFF;

fn view8() -> Viewport {
    Viewport::new(8, 8).unwrap()
}

// a white vertex half way between the near and the far plane
fn white(x: i32, y: i32, w: i32) -> Vertex {
    Vertex::new(
        Vec4::new(x, y, w / 2, w),
        Vec3::new(0, 0, ONE),
        Vec4::new(ONE, ONE, ONE, ONE),
        Vec2::new(0, 0),
    )
}

// covers the pixels of an 8 by 8 viewport on and below the diagonal
fn lower_left(w: i32) -> Triangle {
    Triangle::new([white(-w, -w, w), white(w, -w, w), white(-w, w, w)])
}

fn tinted(t: &Triangle, color: Vec4) -> Triangle {
    let mut t = t.clone();
    for v in t.vertices.iter_mut() {
        v.color = color;
    }
    t
}

// red, green and blue corners with three different normals at three different depths
fn perspective_triangle() -> Triangle {
    Triangle::new([
        Vertex::new(
            Vec4::new(-2 * ONE, -2 * ONE, ONE, 2 * ONE),
            Vec3::new(0, 0, ONE),
            Vec4::new(ONE, 0, 0, ONE),
            Vec2::new(0, 0),
        ),
        Vertex::new(
            Vec4::new(6 * ONE, -6 * ONE, 3 * ONE, 6 * ONE),
            Vec3::new(0, ONE, 0),
            Vec4::new(0, ONE, 0, ONE),
            Vec2::new(ONE, 0),
        ),
        Vertex::new(
            Vec4::new(-4 * ONE, 4 * ONE, 2 * ONE, 4 * ONE),
            Vec3::new(ONE, 0, 0),
            Vec4::new(0, 0, ONE, ONE),
            Vec2::new(0, ONE),
        ),
    ])
}

fn cleared(viewport: Viewport) -> (Vec<u32>, Vec<i64>) {
    let n = viewport.width * viewport.height;
    (vec![CLEAR; n], vec![DEPTH_CLEAR; n])
}

#[test]
fn viewports_have_bounded_sides() {
    assert_eq!(Viewport::new(640, 360), Some(Viewport { width: 640, height: 360 }));
    assert_eq!(Viewport::new(1, 1), Some(Viewport { width: 1, height: 1 }));
    assert!(Viewport::new(MAX_DIMENSION, MAX_DIMENSION).is_some());
    assert_eq!(Viewport::new(0, 360), None);
    assert_eq!(Viewport::new(640, 0), None);
    assert_eq!(Viewport::new(MAX_DIMENSION + 1, 1), None);
    assert_eq!(Viewport::new(1, MAX_DIMENSION + 1), None);
    assert_eq!(MAX_DIMENSION, 1 << 22);
    assert_eq!(SUBPIXEL, 256);
}

#[test]
fn boxes_hold_their_points() {
    let points = [Vec2::new(5, -3), Vec2::new(-7, 9), Vec2::new(2, 4)];
    let bb = AABB::new(&points);
    assert_eq!(bb, AABB { min: Vec2::new(-7, -3), max: Vec2::new(5, 9) });
    for p in points.iter() {
        assert!(bb.intersects(*p));
    }
    assert!(bb.intersects(Vec2::new(-7, -3)));
    assert!(bb.intersects(Vec2::new(5, 9)));
    assert!(bb.intersects(Vec2::new(0, 0)));
    assert!(!bb.intersects(Vec2::new(-8, 0)));
    assert!(!bb.intersects(Vec2::new(6, 0)));
    assert!(!bb.intersects(Vec2::new(0, -4)));
    assert!(!bb.intersects(Vec2::new(0, 10)));
}

#[test]
fn the_box_of_a_quadrilateral() {
    let at = |x: i32, y: i32| white(x, y, ONE);
    let bb = AABB::new_box(&[at(0, 0), at(4, 0), at(4, 2), at(0, 2)]);
    assert_eq!(bb, AABB { min: Vec2::new(0, 0), max: Vec2::new(4, 2) });
    let bb = AABB::new_box(&[at(1, 8), at(-4, 2), at(6, -5), at(0, 0)]);
    assert_eq!(bb, AABB { min: Vec2::new(-4, -5), max: Vec2::new(6, 8) });
    let bb = AABB::new_box(&[at(1, 8), at(-4, 2), at(6, -5), at(-9, -9)]);
    assert_eq!(bb, AABB { min: Vec2::new(-9, -9), max: Vec2::new(6, 8) });
    let bb = AABB::new_box(&[at(1, 8), at(-4, 2), at(6, -5), at(20, 30)]);
    assert_eq!(bb, AABB { min: Vec2::new(-4, -5), max: Vec2::new(20, 30) });
    // every corner lies in the box, whichever comes last
    let corners = [at(3, -7), at(-2, 9), at(5, 5), at(-6, 0)];
    for turn in 0..4 {
        let turned = [
            corners[turn],
            corners[(turn + 1) % 4],
            corners[(turn + 2) % 4],
            corners[(turn + 3) % 4],
        ];
        let bb = AABB::new_box(&turned);
        assert_eq!(bb, AABB { min: Vec2::new(-6, -7), max: Vec2::new(5, 9) });
        for c in corners.iter() {
            assert!(bb.intersects(c.position.xy()));
        }
    }
}

#[test]
fn the_scan_box_is_cut_down_to_the_viewport() {
    let viewport = Viewport::new(640, 360).unwrap();
    let inside = [Vec2::new(100, 200), Vec2::new(5000, 300), Vec2::new(400, 9000)];
    assert_eq!(
        triangle_screen_bounding_box(&inside, viewport),
        Some(AABB { min: Vec2::new(100, 200), max: Vec2::new(5000, 9000) })
    );
    let across = [Vec2::new(-100, -200), Vec2::new(1_000_000, 300), Vec2::new(400, 1_000_000)];
    assert_eq!(
        triangle_screen_bounding_box(&across, viewport),
        Some(AABB { min: Vec2::new(0, 0), max: Vec2::new(639 * 256, 359 * 256) })
    );
    let left = [Vec2::new(-100, 10), Vec2::new(-1, 300), Vec2::new(-50, 900)];
    assert_eq!(triangle_screen_bounding_box(&left, viewport), None);
    let right = [Vec2::new(640 * 256 + 1, 10), Vec2::new(700 * 256, 300), Vec2::new(641 * 256, 9)];
    assert_eq!(triangle_screen_bounding_box(&right, viewport), None);
    let above = [Vec2::new(10, -10), Vec2::new(20, -1), Vec2::new(30, -5)];
    assert_eq!(triangle_screen_bounding_box(&above, viewport), None);
    let below = [Vec2::new(10, 360 * 256 + 1), Vec2::new(20, 400 * 256), Vec2::new(30, 92161)];
    assert_eq!(triangle_screen_bounding_box(&below, viewport), None);
    // touching the viewport's far border
    let border = [Vec2::new(640 * 256, 0), Vec2::new(700 * 256, 0), Vec2::new(640 * 256, 50)];
    assert_eq!(
        triangle_screen_bounding_box(&border, viewport),
        Some(AABB { min: Vec2::new(640 * 256, 0), max: Vec2::new(639 * 256, 50) })
    );
}

#[test]
fn positions_are_divided_by_w_and_mapped_to_the_viewport() {
    let viewport = Viewport::new(640, 360).unwrap();
    let screen = |x: i32, y: i32, w: i32| to_screen(Vec4::new(x, y, 0, w), viewport);
    assert_eq!(screen(0, 0, ONE), Some(Vec2::new(320 * 256, 180 * 256)));
    assert_eq!(screen(-ONE, ONE, ONE), Some(Vec2::new(0, 0)));
    assert_eq!(screen(ONE, -ONE, ONE), Some(Vec2::new(640 * 256, 360 * 256)));
    assert_eq!(screen(-3 * ONE, 3 * ONE, 3 * ONE), Some(Vec2::new(0, 0)));
    assert_eq!(screen(ONE, ONE, 2 * ONE), Some(Vec2::new(480 * 256, 90 * 256)));
    assert_eq!(screen(1, 0, 3), Some(Vec2::new(109226, 180 * 256)));
    assert_eq!(screen(-88997, 158218, 327680), Some(Vec2::new(59670, 23830)));
    assert_eq!(screen(88997, -158218, 327680), Some(Vec2::new(104169, 68329)));
}

#[test]
fn positions_without_a_screen_point() {
    let viewport = Viewport::new(640, 360).unwrap();
    assert_eq!(to_screen(Vec4::new(0, 0, 0, 0), viewport), None);
    assert_eq!(to_screen(Vec4::new(0, 0, 0, -ONE), viewport), None);
    assert_eq!(to_screen(Vec4::new(0, 0, 0, i32::MIN), viewport), None);
    // 2^30 parts of a pixel are the limit: four million pixels
    assert_eq!(SCREEN_LIMIT, 1 << 30);
    assert_eq!(
        to_screen(Vec4::new(858927923, 0, 0, ONE), viewport),
        Some(Vec2::new((1 << 30) - 1, 180 * 256))
    );
    assert_eq!(to_screen(Vec4::new(858927924, 0, 0, ONE), viewport), None);
    assert_eq!(
        to_screen(Vec4::new(13106 * ONE, 0, 0, ONE), viewport),
        Some(Vec2::new(1073725440, 180 * 256))
    );
    assert_eq!(to_screen(Vec4::new(13108 * ONE, 0, 0, ONE), viewport), None);
    assert_eq!(to_screen(Vec4::new(-13110 * ONE, 0, 0, ONE), viewport), None);
    assert_eq!(to_screen(Vec4::new(0, 24000 * ONE, 0, ONE), viewport), None);
    assert_eq!(to_screen(Vec4::new(0, -24000 * ONE, 0, ONE), viewport), None);
    // what lay beyond a narrower limit has a screen point
    assert!(to_screen(Vec4::new(204 * ONE, 400 * ONE, 0, ONE), viewport).is_some());
    assert!(to_screen(Vec4::new(-13000 * ONE, -20000 * ONE, 0, ONE), viewport).is_some());
    assert_eq!(to_screen(Vec4::new(i32::MAX, i32::MIN, 0, 1), viewport), None);
    assert!(to_screen(Vec4::new(i32::MAX, i32::MIN, 0, i32::MAX), viewport).is_some());
}

#[test]
fn triangles_are_projected_to_the_screen() {
    let s = project(&lower_left(ONE), view8()).unwrap();
    assert_eq!(s.screen, [Vec2::new(0, 2048), Vec2::new(2048, 2048), Vec2::new(0, 0)]);
    // the screen's rows run downwards, which turns the winding around
    assert_eq!(s.area, -2048 * 2048);
    // the reciprocals are parts of the largest of them
    assert_eq!(s.reciprocal, [1 << 31, 1 << 31, 1 << 31]);
    let p = project(&perspective_triangle(), view8()).unwrap();
    assert_eq!(p.screen, s.screen);
    assert_eq!(p.reciprocal, [1 << 31, (1i64 << 31) / 3, 1 << 30]);
}

#[test]
fn flat_and_unprojectable_triangles_are_not_projected() {
    let mut line = lower_left(ONE);
    line.vertices[2].position = Vec4::new(0, -ONE, 0, ONE);
    assert_eq!(project(&line, view8()), None);
    let mut point = lower_left(ONE);
    point.vertices[1] = point.vertices[0];
    point.vertices[2] = point.vertices[0];
    assert_eq!(project(&point, view8()), None);
    for i in 0..3 {
        let mut behind = lower_left(ONE);
        behind.vertices[i].position.w = 0;
        assert_eq!(project(&behind, view8()), None);
        let mut far_out = lower_left(ONE);
        far_out.vertices[i].position = Vec4::new(i32::MAX, 0, 0, 1);
        assert_eq!(project(&far_out, view8()), None);
        let mut within = lower_left(ONE);
        within.vertices[i].position.x = i32::MAX;
        assert!(project(&within, view8()).is_some());
    }
}

#[test]
fn weights_are_the_barycentric_weights_over_w() {
    let s = project(&perspective_triangle(), view8()).unwrap();
    assert_eq!(
        weights(&s, 3, 5),
        Some(Weights { q0: 2251799813685248, q1: 1313549890093056, q2: 1407374883553280 })
    );
    assert_eq!(weights(&s, 5, 3), None);
    assert_eq!(weights(&s, 7, 0), None);
    assert!(weights(&s, 0, 0).is_some());
    assert!(weights(&s, 7, 7).is_some());
    assert!(weights(&s, 0, 7).is_some());
}

#[test]
fn interpolation_weighs_the_three_values() {
    let q = Weights { q0: 1, q1: 1, q2: 2 };
    assert_eq!(interpolate(&q, 0, 4, 8), 5);
    assert_eq!(interpolate(&q, 7, 7, 7), 7);
    assert_eq!(interpolate(&q, -7, -7, -7), -7);
    assert_eq!(interpolate(&q, 1, 0, 0), 0);
    assert_eq!(interpolate(&q, -1, 0, 0), -1);
    assert_eq!(interpolate(&q, i32::MAX, i32::MAX, i32::MIN), -1);
    let corner = Weights { q0: 0, q1: 5, q2: 0 };
    assert_eq!(interpolate(&corner, 1, 2, 3), 2);
    let s = project(&perspective_triangle(), view8()).unwrap();
    let q = weights(&s, 3, 5).unwrap();
    assert_eq!(interpolate(&q, 0, ONE, 0), 17311);
    assert_eq!(interpolate(&q, 0, 0, ONE), 18547);
}

#[test]
fn colours_are_lit_by_the_diffuse_and_the_ambient_light() {
    let q = Weights { q0: 1, q1: 1, q2: 1 };
    // 65536 * 0.57735 + 0.2 of full white
    assert_eq!(shade(&lower_left(ONE), &q), 0xFFC6_C6C6);
    let mut away = lower_left(ONE);
    for v in away.vertices.iter_mut() {
        v.normal = Vec3::new(0, 0, -ONE);
    }
    assert_eq!(shade(&away, &q), 0xFF00_0000);
    let mut sideways = lower_left(ONE);
    for v in sideways.vertices.iter_mut() {
        v.normal = Vec3::new(ONE, -ONE, 0);
    }
    // ambient light only: a fifth of 255
    assert_eq!(AMBIENT, 51);
    assert_eq!(shade(&sideways, &q), 0xFF33_3333);
    let mut unlit = lower_left(ONE);
    for v in unlit.vertices.iter_mut() {
        v.normal = Vec3::new(0, 0, 0);
    }
    assert_eq!(shade(&unlit, &q), 0xFF33_3333);
    let mut bright = lower_left(ONE);
    for v in bright.vertices.iter_mut() {
        v.normal = Vec3::new(ONE, ONE, ONE);
        v.color = Vec4::new(ONE, ONE / 2, 0, 0);
    }
    assert_eq!(shade(&bright, &q), 0xFFFF_FF33);
    let black = tinted(&lower_left(ONE), Vec4::new(0, 0, 0, ONE));
    assert_eq!(shade(&black, &q), 0xFF33_3333);
}

#[test]
fn textured_triangles_take_their_colour_from_the_texture() {
    let texture = Arc::new(
        Texture::new(2, 2, vec![0xFFFF_0000, 0xFF00_FF00, 0xFF00_00FF, 0xFFFF_FFFF]).unwrap(),
    );
    let mut t = Triangle::new_with_texture(lower_left(ONE).vertices, texture);
    t.vertices[0].uv = Vec2::new(0, 0);
    t.vertices[1].uv = Vec2::new(ONE, 0);
    t.vertices[2].uv = Vec2::new(0, ONE);
    let at = |q0: i128, q1: i128, q2: i128| shade(&t, &Weights { q0, q1, q2 });
    assert_eq!(at(1, 0, 0), 0xFFC6_3333);
    assert_eq!(at(1, 3, 0), 0xFF33_C633);
    assert_eq!(at(1, 0, 3), 0xFF33_33C6);
    assert_eq!(at(0, 1, 1), 0xFFC6_C6C6);
    // the far corners wrap around to the first texel
    assert_eq!(at(0, 1, 0), 0xFFC6_3333);
    assert_eq!(at(0, 0, 1), 0xFFC6_3333);
}

#[test]
fn fragments_carry_depth_and_colour() {
    let flat = lower_left(ONE);
    let s = project(&flat, view8()).unwrap();
    assert_eq!(fragment(&flat, &s, 0, 7), Some(Fragment { depth: 32768, color: 0xFFC6_C6C6 }));
    assert_eq!(fragment(&flat, &s, 7, 0), None);
    let t = perspective_triangle();
    let s = project(&t, view8()).unwrap();
    let expected = [
        (0, 7, 70690, 0xFFBD_3637u32),
        (3, 5, 118706, 0xFF75_595C),
        (1, 2, 123361, 0xFF55_4492),
        (7, 7, 190650, 0xFF33_B840),
        (0, 0, 133860, 0xFF33_39BF),
        (2, 4, 114390, 0xFF73_4D6B),
    ];
    for (px, py, depth, color) in expected {
        assert_eq!(fragment(&t, &s, px, py), Some(Fragment { depth, color }));
    }
}

#[test]
fn drawing_fills_the_pixels_whose_centre_is_covered() {
    let viewport = view8();
    let (mut colors, mut depths) = cleared(viewport);
    lower_left(ONE).draw_clipped(&mut colors, &mut depths, viewport);
    let mut covered = 0;
    for py in 0..8 {
        for px in 0..8 {
            let i = px + py * 8;
            if px <= py {
                assert_eq!((colors[i], depths[i]), (0xFFC6_C6C6, 32768), "pixel {} {}", px, py);
                covered += 1;
            } else {
                assert_eq!((colors[i], depths[i]), (CLEAR, DEPTH_CLEAR), "pixel {} {}", px, py);
            }
        }
    }
    assert_eq!(covered, 36);
}

#[test]
fn drawing_does_not_depend_on_the_winding() {
    let viewport = view8();
    let (mut colors, mut depths) = cleared(viewport);
    lower_left(ONE).draw_clipped(&mut colors, &mut depths, viewport);
    let t = lower_left(ONE);
    let turned = Triangle::new([t.vertices[0], t.vertices[2], t.vertices[1]]);
    let (mut colors2, mut depths2) = cleared(viewport);
    turned.draw_clipped(&mut colors2, &mut depths2, viewport);
    assert_eq!(colors, colors2);
    assert_eq!(depths, depths2);
}

#[test]
fn drawing_interpolates_with_perspective() {
    let viewport = view8();
    let (mut colors, mut depths) = cleared(viewport);
    let t = perspective_triangle();
    t.draw_clipped(&mut colors, &mut depths, viewport);
    let s = project(&t, viewport).unwrap();
    for py in 0..8 {
        for px in 0..8 {
            let i = px + py * 8;
            match fragment(&t, &s, px, py) {
                Some(f) => assert_eq!((colors[i], depths[i]), (f.color, f.depth)),
                None => assert_eq!((colors[i], depths[i]), (CLEAR, DEPTH_CLEAR)),
            }
        }
    }
    assert_eq!((colors[3 + 5 * 8], depths[3 + 5 * 8]), (0xFF75_595C, 118706));
    // depths lie between the nearest and the farthest vertex
    for py in 0..8 {
        for px in 0..=py {
            let d = depths[px + py * 8];
            assert!(65536 <= d && d <= 3 * 65536);
        }
    }
}

#[test]
fn the_nearer_fragment_wins_the_depth_test() {
    let viewport = view8();
    let (mut colors, mut depths) = cleared(viewport);
    for i in 0..64 {
        depths[i] = if i % 2 == 0 { 32767 } else { 32769 };
    }
    depths[7 * 8] = 32768;
    lower_left(ONE).draw_clipped(&mut colors, &mut depths, viewport);
    for py in 0..8 {
        for px in 0..8 {
            let i = px + py * 8;
            if px <= py && i % 2 == 1 {
                assert_eq!((colors[i], depths[i]), (0xFFC6_C6C6, 32768));
            } else if i == 7 * 8 {
                // an equal depth does not replace what is there
                assert_eq!((colors[i], depths[i]), (CLEAR, 32768));
            } else {
                assert_eq!(colors[i], CLEAR);
                assert_eq!(depths[i], if i % 2 == 0 { 32767 } else { 32769 });
            }
        }
    }
}

#[test]
fn overlapping_triangles_can_be_drawn_in_either_order() {
    let viewport = view8();
    let near = tinted(&lower_left(ONE), Vec4::new(ONE, 0, 0, ONE));
    let far_one = {
        // covers the pixels on and above the diagonal, twice as far away
        let w = 2 * ONE;
        let t = Triangle::new([white(-w, w, w), white(w, -w, w), white(w, w, w)]);
        tinted(&t, Vec4::new(0, 0, ONE, ONE))
    };
    let (mut colors_a, mut depths_a) = cleared(viewport);
    near.draw_clipped(&mut colors_a, &mut depths_a, viewport);
    far_one.draw_clipped(&mut colors_a, &mut depths_a, viewport);
    let (mut colors_b, mut depths_b) = cleared(viewport);
    far_one.draw_clipped(&mut colors_b, &mut depths_b, viewport);
    near.draw_clipped(&mut colors_b, &mut depths_b, viewport);
    assert_eq!(colors_a, colors_b);
    assert_eq!(depths_a, depths_b);
    for py in 0..8 {
        for px in 0..8 {
            let i = px + py * 8;
            if px <= py {
                assert_eq!((colors_a[i], depths_a[i]), (0xFFC6_3333, 32768));
            } else {
                assert_eq!((colors_a[i], depths_a[i]), (0xFF33_33C6, 65536));
            }
        }
    }
}

#[test]
fn triangles_that_cannot_be_drawn_leave_the_buffers_alone() {
    let viewport = view8();
    let mut line = lower_left(ONE);
    line.vertices[2].position = Vec4::new(0, -ONE, 0, ONE);
    let mut behind = lower_left(ONE);
    behind.vertices[1].position.w = -ONE;
    let mut far_out = lower_left(ONE);
    far_out.vertices[0].position = Vec4::new(i32::MIN, 0, 0, 1);
    let mut beside = lower_left(ONE);
    for v in beside.vertices.iter_mut() {
        v.position.x += 3 * ONE;
    }
    for t in [line, behind, far_out, beside] {
        let (mut colors, mut depths) = cleared(viewport);
        t.draw_clipped(&mut colors, &mut depths, viewport);
        assert_eq!(colors, vec![CLEAR; 64]);
        assert_eq!(depths, vec![DEPTH_CLEAR; 64]);
    }
}

#[test]
fn triangles_larger_than_the_viewport_fill_it() {
    let viewport = Viewport::new(5, 3).unwrap();
    let (mut colors, mut depths) = cleared(viewport);
    let w = ONE;
    let t = Triangle::new([white(-9 * w, -9 * w, w), white(9 * w, -9 * w, w), white(0, 9 * w, w)]);
    t.draw_clipped(&mut colors, &mut depths, viewport);
    assert_eq!(colors, vec![0xFFC6_C6C6; 15]);
    assert_eq!(depths, vec![32768; 15]);
    // one that reaches seventy thousand pixels beyond the viewport is cut down to it
    let (mut colors, mut depths) = cleared(viewport);
    let far = 30000 * ONE;
    let t = Triangle::new([white(-far, -far, w), white(far, -far, w), white(0, far, w)]);
    let reach = to_screen(t.vertices[1].position, viewport).unwrap();
    assert_eq!(reach.x / 256, 75002);
    t.draw_clipped(&mut colors, &mut depths, viewport);
    assert_eq!(colors, vec![0xFFC6_C6C6; 15]);
    assert_eq!(depths, vec![32768; 15]);
}

#[test]
fn positions_inside_the_view_volume_land_in_the_viewport() {
    let viewport = Viewport::new(640, 360).unwrap();
    let w = 3 * ONE + 7;
    for x in [-w, -w + 1, -ONE, -1, 0, 1, ONE, w - 1, w] {
        for y in [-w, -5, 0, 5, w] {
            let s = to_screen(Vec4::new(x, y, 0, w), viewport).unwrap();
            assert!(0 <= s.x && s.x <= 640 * 256, "{:?}", s);
            assert!(0 <= s.y && s.y <= 360 * 256, "{:?}", s);
        }
    }
    // the borders are reached where a coordinate is `w` or `-w`
    assert_eq!(to_screen(Vec4::new(-w, w, 0, w), viewport), Some(Vec2::new(0, 0)));
    let far_corner = Vec2::new(640 * 256, 360 * 256);
    assert_eq!(to_screen(Vec4::new(w, -w, 0, w), viewport), Some(far_corner));
    // just outside lies just off the viewport
    let s = to_screen(Vec4::new(w + 1, -w - 1, 0, w), viewport).unwrap();
    assert!(s.x >= 640 * 256 && s.y >= 360 * 256);
    let s = to_screen(Vec4::new(-w - 1, w + 1, 0, w), viewport).unwrap();
    assert!(s.x < 0 && s.y < 0);
}

// the formulas of the pipeline on floating-point numbers, for one pixel
// gives the depth, the lit colour and the least of the three barycentric weights
fn on_real_numbers(
    t: &Triangle,
    width: f64,
    height: f64,
    px: usize,
    py: usize,
) -> (f64, [f64; 3], f64) {
    let f = |x: i32| x as f64 / 65536.0;
    let mut sc = [[0.0f64; 2]; 3];
    let mut rec = [0.0f64; 3];
    for i in 0..3 {
        let p = t.vertices[i].position;
        rec[i] = 1.0 / f(p.w);
        sc[i] = [(f(p.x) * rec[i] + 1.0) / 2.0 * width, (-f(p.y) * rec[i] + 1.0) / 2.0 * height];
    }
    let edge = |v1: [f64; 2], v0: [f64; 2], p: [f64; 2]| {
        (p[0] - v0[0]) * (v1[1] - v0[1]) - (p[1] - v0[1]) * (v1[0] - v0[0])
    };
    let area = edge(sc[0], sc[1], sc[2]);
    let p = [px as f64 + 0.5, py as f64 + 0.5];
    let m = [
        edge(sc[1], sc[2], p) / area,
        edge(sc[2], sc[0], p) / area,
        edge(sc[0], sc[1], p) / area,
    ];
    let correction = 1.0 / (m[0] * rec[0] + m[1] * rec[1] + m[2] * rec[2]);
    let z = [f(t.vertices[0].position.z), f(t.vertices[1].position.z), f(t.vertices[2].position.z)];
    let depth = (m[0] * z[0] * rec[0] + m[1] * z[1] * rec[1] + m[2] * z[2] * rec[2]) * correction;
    let mix = |a: [f64; 3]| {
        (m[0] * a[0] * rec[0] + m[1] * a[1] * rec[1] + m[2] * a[2] * rec[2]) * correction
    };
    let v = &t.vertices;
    let normal = [
        mix([f(v[0].normal.x), f(v[1].normal.x), f(v[2].normal.x)]),
        mix([f(v[0].normal.y), f(v[1].normal.y), f(v[2].normal.y)]),
        mix([f(v[0].normal.z), f(v[1].normal.z), f(v[2].normal.z)]),
    ];
    let light = (normal[0] + normal[1] + normal[2]) / 3.0f64.sqrt();
    let color = [
        mix([f(v[0].color.x), f(v[1].color.x), f(v[2].color.x)]) * light + 0.2,
        mix([f(v[0].color.y), f(v[1].color.y), f(v[2].color.y)]) * light + 0.2,
        mix([f(v[0].color.z), f(v[1].color.z), f(v[2].color.z)]) * light + 0.2,
    ];
    let least = m[0].min(m[1]).min(m[2]);
    (depth, color, least)
}

#[test]
fn drawing_follows_the_formulas_on_real_numbers() {
    let viewport = Viewport::new(64, 36).unwrap();
    let t = Triangle::new([
        Vertex::new(
            Vec4::new(fx(-1.4), fx(-1.1), fx(0.5), fx(1.5)),
            Vec3::new(fx(0.2), fx(0.3), fx(0.9)),
            Vec4::new(fx(1.0), fx(0.1), fx(0.2), ONE),
            Vec2::new(0, 0),
        ),
        Vertex::new(
            Vec4::new(fx(3.5), fx(-2.0), fx(2.0), fx(4.0)),
            Vec3::new(fx(0.6), fx(0.6), fx(0.5)),
            Vec4::new(fx(0.2), fx(0.9), fx(0.3), ONE),
            Vec2::new(0, 0),
        ),
        Vertex::new(
            Vec4::new(fx(-0.5), fx(2.2), fx(1.0), fx(2.5)),
            Vec3::new(fx(0.9), fx(0.1), fx(0.4)),
            Vec4::new(fx(0.3), fx(0.2), fx(1.0), ONE),
            Vec2::new(0, 0),
        ),
    ]);
    let (mut colors, mut depths) = cleared(viewport);
    t.draw_clipped(&mut colors, &mut depths, viewport);
    let mut inside = 0;
    let mut outside = 0;
    for py in 0..36 {
        for px in 0..64 {
            let i = px + py * 64;
            let (depth, color, least) = on_real_numbers(&t, 64.0, 36.0, px, py);
            if least > 0.01 {
                inside += 1;
                assert_ne!(depths[i], DEPTH_CLEAR, "pixel {} {}", px, py);
                let got = depths[i] as f64 / 65536.0;
                assert!((got - depth).abs() < 1e-3, "pixel {} {}", px, py);
                let (a, r, g, b) = rusterizer::from_argb8(colors[i]);
                assert_eq!(a, 255);
                for (got, want) in [(r, color[0]), (g, color[1]), (b, color[2])] {
                    let want = (want * 255.0).clamp(0.0, 255.0);
                    assert!((got as f64 - want).abs() <= 1.5, "{} {}: {} {}", px, py, got, want);
                }
            } else if least < -0.01 {
                outside += 1;
                assert_eq!((colors[i], depths[i]), (CLEAR, DEPTH_CLEAR), "pixel {} {}", px, py);
            }
        }
    }
    assert!(inside > 300 && outside > 300, "{} {}", inside, outside);
}

fn fx(x: f64) -> i32 {
    (x * 65536.0).round() as i32
}

#[test]
fn the_depth_is_that_of_z_and_not_that_of_w() {
    let viewport = Viewport::new(2, 2).unwrap();
    let corner = |x: i32, y: i32, z: i32| {
        Vertex::new(
            Vec4::new(x, y, z, ONE),
            Vec3::new(0, 0, 0),
            Vec4::new(ONE, ONE, ONE, ONE),
            Vec2::new(0, 0),
        )
    };
    let at = |z: i32| {
        Triangle::new([corner(-ONE, ONE, z), corner(ONE / 2, ONE, z), corner(-ONE, -ONE / 2, z)])
    };
    // only the first pixel is covered; no normal leaves the ambient light alone
    let mut colors: Vec<u32> = vec![0; 4];
    let mut depths: Vec<i64> = vec![DEPTH_CLEAR; 4];
    at(ONE / 2).draw_clipped(&mut colors, &mut depths, viewport);
    assert_eq!(colors, vec![0xFF33_3333, 0, 0, 0]);
    assert_eq!(depths, vec![32768, DEPTH_CLEAR, DEPTH_CLEAR, DEPTH_CLEAR]);
    // two triangles with the same w and different z: the nearer wins in either order
    let near = tinted(&at(13107), Vec4::new(ONE, 0, 0, ONE));
    let far_one = tinted(&at(52429), Vec4::new(0, 0, ONE, ONE));
    for order in [[&near, &far_one], [&far_one, &near]] {
        let mut colors: Vec<u32> = vec![0; 4];
        let mut depths: Vec<i64> = vec![DEPTH_CLEAR; 4];
        order[0].draw_clipped(&mut colors, &mut depths, viewport);
        order[1].draw_clipped(&mut colors, &mut depths, viewport);
        assert_eq!(depths[0], 13107);
        assert_eq!(colors, shaded_like(&near, viewport));
    }
    // a triangle behind the near plane is drawn with the negative depth it has
    let mut colors: Vec<u32> = vec![0; 4];
    let mut depths: Vec<i64> = vec![DEPTH_CLEAR; 4];
    at(-ONE).draw_clipped(&mut colors, &mut depths, viewport);
    assert_eq!(depths[0], -65536);
    // the largest depth is still nearer than a cleared pixel
    let mut depths: Vec<i64> = vec![DEPTH_CLEAR; 4];
    at(i32::MAX).draw_clipped(&mut colors, &mut depths, viewport);
    assert_eq!(depths[0], i32::MAX as i64);
}

fn shaded_like(t: &Triangle, viewport: Viewport) -> Vec<u32> {
    let mut colors: Vec<u32> = vec![0; viewport.width * viewport.height];
    let mut depths: Vec<i64> = vec![DEPTH_CLEAR; viewport.width * viewport.height];
    t.draw_clipped(&mut colors, &mut depths, viewport);
    colors
}
