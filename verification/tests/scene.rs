use rusterizer::{
    clear_screen, look_at, perspective, section_is_valid, to_clip_space, to_screen,
    triangle_screen_bounding_box, triangles_from_indices, Camera, Mat4, Mesh, Model, Object, Quad,
    Quat, Texture, Transform, TransformInitialParams, Triangle, UVec3, Vec2, Vec3, Vec4, Vertex,
    Viewport, DEPTH_CLEAR, ONE,
};
use std::sync::Arc;

fn fixed(x: f64) -> i32 {
    (x * 65536.0).round() as i32
}

fn float(x: i32) -> f64 {
    x as f64 / 65536.0
}

fn corner(x: i32, y: i32) -> Vertex {
    Vertex::new(
        Vec4::new(x, y, 0, ONE),
        Vec3::new(0, 0, ONE),
        Vec4::new(ONE, ONE, ONE, ONE),
        Vec2::new(0, 0),
    )
}

fn unit_quad() -> Quad {
    Quad::new(
        [corner(-ONE, -ONE), corner(ONE, -ONE), corner(ONE, ONE), corner(-ONE, ONE)],
        [0, 1, 2, 0, 2, 3],
    )
}

// at (0, 0, 5), turned half way round the y axis so that it looks down the negative z axis
fn scene_camera() -> Camera {
    Camera {
        frustum_near: ONE,
        frustum_far: 100 * ONE,
        focal: 158218,
        aspect_ratio: 116508,
        transform: Transform::new(
            Vec3::new(0, 0, 5 * ONE),
            Quat::from_xyzw(0, ONE, 0, 0),
            Vec3::new(ONE, ONE, ONE),
        ),
        speed: 10 * ONE,
    }
}

fn columns(m: &Mat4) -> [[i32; 4]; 4] {
    let c = |v: Vec4| [v.x, v.y, v.z, v.w];
    [c(m.x_axis), c(m.y_axis), c(m.z_axis), c(m.w_axis)]
}

#[test]
fn the_identity_matrix_changes_nothing() {
    let m = Mat4::identity();
    assert_eq!(columns(&m), [[ONE, 0, 0, 0], [0, ONE, 0, 0], [0, 0, ONE, 0], [0, 0, 0, ONE]]);
    for v in [Vec4::new(1, -2, 3, -4), Vec4::new(i32::MAX, i32::MIN, 0, ONE)] {
        assert_eq!(m.mul_vec4(v), Some(v));
    }
    let other = Mat4::from_cols(
        Vec4::new(1, 2, 3, 4),
        Vec4::new(-5, 6, -7, 8),
        Vec4::new(ONE, 0, -ONE, 9),
        Vec4::new(i32::MAX, i32::MIN, 0, 1),
    );
    assert_eq!(m.mul_mat4(&other), Some(other));
    assert_eq!(other.mul_mat4(&m), Some(other));
    assert_eq!(m.cofactor(), Some(m));
}

#[test]
fn matrices_multiply_vectors_row_by_column() {
    let m = Mat4::from_cols(
        Vec4::new(2 * ONE, 0, 0, 0),
        Vec4::new(0, 3 * ONE, 0, 0),
        Vec4::new(0, 0, ONE / 2, -ONE),
        Vec4::new(10 * ONE, 20 * ONE, 30 * ONE, 0),
    );
    assert_eq!(
        m.mul_vec4(Vec4::new(ONE, ONE, 4 * ONE, ONE)),
        Some(Vec4::new(12 * ONE, 23 * ONE, 32 * ONE, -4 * ONE))
    );
    assert_eq!(m.mul_vec4(Vec4::new(1, 1, 1, 0)), Some(Vec4::new(2, 3, 0, -1)));
    assert_eq!(m.mul_vec4(Vec4::new(i32::MAX, 0, 0, 0)), None);
    assert_eq!(m.mul_vec4(Vec4::new(0, i32::MIN, 0, 0)), None);
    assert_eq!(m.mul_vec4(Vec4::new(0, 0, 0, i32::MAX)), None);
    let big = Mat4::from_cols(
        Vec4::new(i32::MAX, 0, 0, 0),
        Vec4::new(0, ONE, 0, 0),
        Vec4::new(0, 0, ONE, 0),
        Vec4::new(0, 0, 0, ONE),
    );
    assert_eq!(big.mul_mat4(&big), None);
    assert_eq!(m.mul_mat4(&big), None);
}

#[test]
fn the_cofactors_transform_normals_under_uneven_scale() {
    let stretch = Mat4::from_scale(Vec3::new(2 * ONE, 3 * ONE, 4 * ONE));
    let c = stretch.cofactor().unwrap();
    assert_eq!(
        columns(&c),
        [[12 * ONE, 0, 0, 0], [0, 8 * ONE, 0, 0], [0, 0, 6 * ONE, 0], [0, 0, 0, ONE]]
    );
    let huge = Mat4::from_scale(Vec3::new(i32::MAX, i32::MAX, ONE));
    assert_eq!(huge.cofactor(), None);
}

#[test]
fn vectors_cross_dot_and_normalize() {
    let x = Vec3::new(ONE, 0, 0);
    let y = Vec3::new(0, ONE, 0);
    let z = Vec3::new(0, 0, ONE);
    assert_eq!(x.cross(y), Some(z));
    assert_eq!(y.cross(z), Some(x));
    assert_eq!(z.cross(x), Some(y));
    assert_eq!(y.cross(x), Some(Vec3::new(0, 0, -ONE)));
    assert_eq!(x.dot(y), Some(0));
    assert_eq!(Vec3::new(2 * ONE, 3 * ONE, 4 * ONE).dot(Vec3::new(ONE, ONE, ONE)), Some(9 * ONE));
    assert_eq!(Vec3::new(i32::MAX, i32::MAX, 0).dot(Vec3::new(ONE, ONE, 0)), None);
    assert_eq!(Vec3::new(i32::MAX, 0, 0).cross(Vec3::new(0, i32::MAX, 0)), None);
    assert_eq!(Vec3::new(0, 0, 0).normalize(), None);
    assert_eq!(Vec3::new(0, 0, 7).normalize(), Some(z));
    assert_eq!(Vec3::new(0, -3 * ONE, 0).normalize(), Some(Vec3::new(0, -ONE, 0)));
    assert_eq!(Vec3::new(3 * ONE, 4 * ONE, 0).normalize(), Some(Vec3::new(39321, 52428, 0)));
    assert_eq!(Vec3::new(1, 1, 0).normalize(), Some(Vec3::new(46341, 46341, 0)));
    assert_eq!(
        Vec3::new(i32::MIN, i32::MIN, i32::MIN).normalize(),
        Some(Vec3::new(-37838, -37838, -37838))
    );
}

#[test]
fn rotations_are_stored_normalized() {
    assert_eq!(Quat::identity(), Quat::from_xyzw(0, 0, 0, ONE));
    assert_eq!(Quat::from_xyzw(0, 0, 0, 5).normalize(), Quat::identity());
    assert_eq!(Quat::from_xyzw(0, 0, 0, 0).normalize(), Quat::identity());
    assert_eq!(Quat::from_xyzw(2 * ONE, 0, 0, 0).normalize(), Quat::from_xyzw(ONE, 0, 0, 0));
    assert_eq!(
        Quat::from_xyzw(ONE, ONE, ONE, ONE).normalize(),
        Quat::from_xyzw(ONE / 2, ONE / 2, ONE / 2, ONE / 2)
    );
    assert_eq!(
        Quat::from_xyzw(i32::MIN, i32::MAX, i32::MIN, i32::MAX).normalize(),
        Quat::from_xyzw(-ONE / 2 - 1, ONE / 2 - 1, -ONE / 2 - 1, ONE / 2 - 1)
    );
    let t = Vec3::new(1, 2, 3);
    let s = Vec3::new(4, 5, 6);
    let q = Quat::from_xyzw(0, 3 * ONE, 0, 4 * ONE);
    let unit = Quat::from_xyzw(0, 39321, 0, 52428);
    assert_eq!(Transform::new(t, q, s), Transform { translation: t, rotation: unit, scale: s });
    assert_eq!(Transform::from_rotation(q).rotation, unit);
    assert_eq!(Transform::from_translation_rotation(t, q).rotation, unit);
    assert_eq!(Transform::from_translation(t).rotation, Quat::identity());
    assert_eq!(Transform::identity().rotation, Quat::identity());
}

#[test]
fn poses_are_made_from_parameters() {
    let one = Vec3::new(ONE, ONE, ONE);
    let zero = Vec3::new(0, 0, 0);
    let t = Vec3::new(7, 8, 9);
    let q = Quat::from_xyzw(0, 0, 9, 0);
    let turned = Quat::from_xyzw(0, 0, ONE, 0);
    assert_eq!(Transform::from(TransformInitialParams::Identity), Transform::identity());
    assert_eq!(
        Transform::identity(),
        Transform { translation: zero, rotation: Quat::identity(), scale: one }
    );
    assert_eq!(
        Transform::from(TransformInitialParams::Translation(t)),
        Transform { translation: t, rotation: Quat::identity(), scale: one }
    );
    assert_eq!(
        Transform::from(TransformInitialParams::Rotation(q)),
        Transform { translation: zero, rotation: turned, scale: one }
    );
    assert_eq!(
        Transform::from(TransformInitialParams::TranslationRotation(t, q)),
        Transform { translation: t, rotation: turned, scale: one }
    );
    let made: Transform = TransformInitialParams::Translation(t).into();
    assert_eq!(made, Transform::from_translation(t));
}

#[test]
fn a_rotation_turns_the_axes() {
    let plain = Transform::identity();
    assert_eq!(plain.right(), Vec3::new(ONE, 0, 0));
    assert_eq!(plain.up(), Vec3::new(0, ONE, 0));
    assert_eq!(plain.forward(), Vec3::new(0, 0, ONE));
    // half a turn round the y axis
    let about = Transform::from_rotation(Quat::from_xyzw(0, ONE, 0, 0));
    assert_eq!(about.right(), Vec3::new(-ONE, 0, 0));
    assert_eq!(about.up(), Vec3::new(0, ONE, 0));
    assert_eq!(about.forward(), Vec3::new(0, 0, -ONE));
    // a quarter turn round the z axis
    let quarter = Transform::from_rotation(Quat::from_xyzw(0, 0, ONE, ONE));
    let r = quarter.right();
    let u = quarter.up();
    assert!(r.x.abs() <= 4 && (r.y - ONE).abs() <= 4 && r.z == 0, "{:?}", r);
    assert!((u.x + ONE).abs() <= 4 && u.y.abs() <= 4 && u.z == 0, "{:?}", u);
    assert_eq!(quarter.forward(), Vec3::new(0, 0, ONE));
}

#[test]
fn the_matrix_of_a_pose_scales_then_turns_then_moves() {
    let pose = Transform::new(
        Vec3::new(10 * ONE, 20 * ONE, 30 * ONE),
        Quat::from_xyzw(0, ONE, 0, 0),
        Vec3::new(2 * ONE, 3 * ONE, 4 * ONE),
    );
    let local = pose.local().unwrap();
    assert_eq!(
        columns(&local),
        [
            [-2 * ONE, 0, 0, 0],
            [0, 3 * ONE, 0, 0],
            [0, 0, -4 * ONE, 0],
            [10 * ONE, 20 * ONE, 30 * ONE, ONE]
        ]
    );
    assert_eq!(
        local.mul_vec4(Vec4::new(ONE, ONE, ONE, ONE)),
        Some(Vec4::new(8 * ONE, 23 * ONE, 26 * ONE, ONE))
    );
    assert_eq!(Transform::identity().local(), Some(Mat4::identity()));
    assert_eq!(
        Transform::from_translation(Vec3::new(1, 2, 3)).local(),
        Some(Mat4::from_translation(Vec3::new(1, 2, 3)))
    );
    let huge = Transform::new(
        Vec3::new(0, 0, 0),
        Quat::identity(),
        Vec3::new(i32::MAX, ONE, ONE),
    );
    assert!(huge.local().is_some());
    let beyond = Transform::new(
        Vec3::new(0, 0, 0),
        Quat::from_xyzw(0, 0, ONE, 0),
        Vec3::new(i32::MIN, ONE, ONE),
    );
    assert_eq!(beyond.local(), None);
}

#[test]
fn the_default_camera() {
    let c = Camera::default();
    assert_eq!(c.frustum_near, 6554);
    assert_eq!(c.frustum_far, 100 * ONE);
    assert_eq!(c.focal, 158218);
    assert_eq!(c.aspect_ratio, ONE);
    assert_eq!(c.transform, Transform::identity());
    assert_eq!(c.speed, 10 * ONE);
    // the cotangent of half of a quarter of a half turn
    assert_eq!(c.focal, fixed(1.0 / (std::f64::consts::PI / 8.0).tan()));
}

#[test]
fn the_projection_of_the_lens() {
    let p = scene_camera().projection().unwrap();
    assert_eq!(
        columns(&p),
        [[88997, 0, 0, 0], [0, 158218, 0, 0], [0, 0, -66197, -ONE], [0, 0, -66197, 0]]
    );
    assert_eq!(perspective(ONE, ONE, ONE, 2 * ONE).map(|m| columns(&m)), Some([
        [ONE, 0, 0, 0],
        [0, ONE, 0, 0],
        [0, 0, -2 * ONE, -ONE],
        [0, 0, -2 * ONE, 0]
    ]));
    assert_eq!(perspective(ONE, 0, ONE, 2 * ONE), None);
    assert_eq!(perspective(ONE, ONE, ONE, ONE), None);
    assert_eq!(perspective(i32::MAX, 1, ONE, 2 * ONE), None);
    assert!(perspective(ONE, ONE, 2, 1).is_some());
}

#[test]
fn the_projection_agrees_with_the_floating_point_one() {
    let fov = std::f32::consts::PI / 4.0;
    let expected = glam::camera::rh::proj::directx::perspective(fov, 640.0 / 360.0, 1.0, 100.0);
    let got = columns(&scene_camera().projection().unwrap());
    let want = expected.to_cols_array_2d();
    for c in 0..4 {
        for r in 0..4 {
            assert!((float(got[c][r]) - want[c][r] as f64).abs() < 1e-4, "{} {}", c, r);
        }
    }
}

#[test]
fn the_view_of_the_camera() {
    let v = scene_camera().view().unwrap();
    assert_eq!(
        columns(&v),
        [[ONE, 0, 0, 0], [0, ONE, 0, 0], [0, 0, ONE, 0], [0, 0, -5 * ONE, ONE]]
    );
    // the default camera looks along the positive z axis
    let d = Camera::default().view().unwrap();
    assert_eq!(columns(&d), [[-ONE, 0, 0, 0], [0, ONE, 0, 0], [0, 0, -ONE, 0], [0, 0, 0, ONE]]);
    let eye = Vec3::new(0, 0, 0);
    assert_eq!(look_at(eye, eye, Vec3::new(0, ONE, 0)), None);
    assert_eq!(look_at(eye, Vec3::new(0, 5, 0), Vec3::new(0, ONE, 0)), None);
    let up = Vec3::new(0, ONE, 0);
    assert_eq!(look_at(Vec3::new(i32::MIN, 0, 0), Vec3::new(i32::MAX, 0, 0), up), None);
    let far = Camera {
        transform: Transform::from_translation(Vec3::new(0, 0, i32::MAX)),
        ..Camera::default()
    };
    assert_eq!(far.view(), None);
}

#[test]
fn the_view_agrees_with_the_floating_point_one() {
    let eye = [3.0f32, -2.0, 7.5];
    let center = [-1.0f32, 0.5, 1.0];
    let expected = glam::camera::rh::view::look_at_mat4(
        glam::Vec3::from_array(eye),
        glam::Vec3::from_array(center),
        glam::Vec3::Y,
    );
    let v3 = |a: [f32; 3]| Vec3::new(fixed(a[0] as f64), fixed(a[1] as f64), fixed(a[2] as f64));
    let got = columns(&look_at(v3(eye), v3(center), Vec3::new(0, ONE, 0)).unwrap());
    let want = expected.to_cols_array_2d();
    for c in 0..4 {
        for r in 0..4 {
            assert!((float(got[c][r]) - want[c][r] as f64).abs() < 1e-3, "{} {}", c, r);
        }
    }
}

#[test]
fn a_quad_in_front_of_the_camera_covers_the_computed_rectangle() {
    let viewport = Viewport::new(640, 360).unwrap();
    let camera = scene_camera();
    let mvp = camera.projection().unwrap().mul_mat4(&camera.view().unwrap()).unwrap();
    let quad = unit_quad();

    // the rectangle computed from the projection formula
    let focal = 1.0 / (std::f64::consts::PI / 8.0).tan();
    let ndc_x = focal / (640.0 / 360.0) / 5.0;
    let ndc_y = focal / 5.0;
    let left = (1.0 - ndc_x) / 2.0 * 640.0;
    let right = (1.0 + ndc_x) / 2.0 * 640.0;
    let top = (1.0 - ndc_y) / 2.0 * 360.0;
    let bottom = (1.0 + ndc_y) / 2.0 * 360.0;
    assert_eq!((left.floor(), right.floor()), (233.0, 406.0));
    assert_eq!((top.floor(), bottom.floor()), (93.0, 266.0));

    // the screen box of each of the two triangles
    let model = Mat4::identity();
    for face in [[0usize, 1, 2], [0, 2, 3]] {
        let v = quad.vertices;
        let t = Triangle::new([v[face[0]], v[face[1]], v[face[2]]]);
        let clip = to_clip_space(&t, &model, &mvp).unwrap();
        let points = [
            to_screen(clip.vertices[0].position, viewport).unwrap(),
            to_screen(clip.vertices[1].position, viewport).unwrap(),
            to_screen(clip.vertices[2].position, viewport).unwrap(),
        ];
        let bb = triangle_screen_bounding_box(&points, viewport).unwrap();
        assert_eq!(bb.min, Vec2::new(59670, 23830));
        assert_eq!(bb.max, Vec2::new(104169, 68329));
        assert_eq!((bb.min.x / 256, bb.max.x / 256), (233, 406));
        assert_eq!((bb.min.y / 256, bb.max.y / 256), (93, 266));
        assert!((bb.min.x as f64 / 256.0 - left).abs() < 0.01);
        assert!((bb.max.x as f64 / 256.0 - right).abs() < 0.01);
        assert!((bb.min.y as f64 / 256.0 - top).abs() < 0.01);
        assert!((bb.max.y as f64 / 256.0 - bottom).abs() < 0.01);
    }

    let mut colors: Vec<u32> = vec![0; 640 * 360];
    let mut depths: Vec<i64> = vec![DEPTH_CLEAR; 640 * 360];
    clear_screen(&mut colors, Vec4::new(204 * ONE, 255 * ONE, 255 * ONE, 0));
    quad.draw(&mut colors, &mut depths, &model, &mvp, viewport);
    for py in 0..360 {
        for px in 0..640 {
            let i = px + py * 640;
            if (233..=406).contains(&px) && (93..=266).contains(&py) {
                assert_eq!((colors[i], depths[i]), (0xFFC6_C6C6, 264788), "{} {}", px, py);
            } else {
                assert_eq!((colors[i], depths[i]), (0x00CC_FFFF, DEPTH_CLEAR), "{} {}", px, py);
            }
        }
    }
}

#[test]
fn a_quad_seen_from_behind_is_not_drawn() {
    let viewport = Viewport::new(64, 36).unwrap();
    let camera = Camera {
        transform: Transform::from_translation(Vec3::new(0, 0, -5 * ONE)),
        ..scene_camera()
    };
    let mvp = camera.projection().unwrap().mul_mat4(&camera.view().unwrap()).unwrap();
    let mut colors: Vec<u32> = vec![7; 64 * 36];
    let mut depths: Vec<i64> = vec![DEPTH_CLEAR; 64 * 36];
    unit_quad().draw(&mut colors, &mut depths, &Mat4::identity(), &mvp, viewport);
    assert_eq!(colors, vec![7; 64 * 36]);
    assert_eq!(depths, vec![DEPTH_CLEAR; 64 * 36]);
}

#[test]
fn a_triangle_across_the_near_plane_is_drawn_up_to_it() {
    let viewport = Viewport::new(64, 36).unwrap();
    let camera = scene_camera();
    let mvp = camera.projection().unwrap().mul_mat4(&camera.view().unwrap()).unwrap();
    // reaches from in front of the camera to behind it
    let t = Triangle::new([
        Vertex { position: Vec4::new(-ONE, -ONE, 0, ONE), ..corner(0, 0) },
        Vertex { position: Vec4::new(ONE, -ONE, 0, ONE), ..corner(0, 0) },
        Vertex { position: Vec4::new(0, ONE, 8 * ONE, ONE), ..corner(0, 0) },
    ]);
    let mut colors: Vec<u32> = vec![7; 64 * 36];
    let mut depths: Vec<i64> = vec![DEPTH_CLEAR; 64 * 36];
    t.draw(&mut colors, &mut depths, &Mat4::identity(), &mvp, viewport);
    let drawn: Vec<i64> = depths.iter().copied().filter(|&d| d != DEPTH_CLEAR).collect();
    assert!(!drawn.is_empty());
    // nothing nearer than the near plane, nothing farther than the far vertices
    // the depth of the two vertices in front, five units from the camera
    let far_depth = 264788;
    assert!(drawn.iter().all(|&d| 0 <= d && d <= far_depth));
    assert!(drawn.iter().any(|&d| d < far_depth / 2));
    for i in 0..64 * 36 {
        assert_eq!(colors[i] == 7, depths[i] == DEPTH_CLEAR);
    }
}

#[test]
fn indices_are_grouped_into_faces() {
    assert_eq!(triangles_from_indices(&[]), vec![]);
    assert_eq!(triangles_from_indices(&[1, 2]), vec![]);
    assert_eq!(triangles_from_indices(&[0, 1, 2]), vec![UVec3::new(0, 1, 2)]);
    assert_eq!(
        triangles_from_indices(&[0, 1, 2, 2, 1, 3, 9, 9]),
        vec![UVec3::new(0, 1, 2), UVec3::new(2, 1, 3)]
    );
}

#[test]
fn sections_are_checked_against_their_vertices() {
    let faces = [UVec3::new(0, 1, 2), UVec3::new(2, 1, 3)];
    assert!(section_is_valid(&faces, 4));
    assert!(section_is_valid(&faces, 5));
    assert!(!section_is_valid(&faces, 3));
    assert!(!section_is_valid(&faces, 0));
    assert!(section_is_valid(&[], 0));
    assert!(!section_is_valid(&[UVec3::new(7, 0, 0)], 7));
    assert!(!section_is_valid(&[UVec3::new(0, 7, 0)], 7));
    assert!(!section_is_valid(&[UVec3::new(0, 0, 7)], 7));
}

#[test]
fn sections_are_renumbered_by_the_vertices_before_them() {
    let mut mesh = Mesh::new();
    assert!(mesh.triangles().is_empty());
    assert!(mesh.vertices().is_empty());
    let first = [corner(0, 0), corner(1, 0), corner(0, 1)];
    let second = [corner(5, 5), corner(6, 5), corner(5, 6), corner(6, 6)];
    mesh.add_section_from_vertices(&[UVec3::new(0, 1, 2)], &first);
    mesh.add_section_from_vertices(&[UVec3::new(0, 1, 2), UVec3::new(2, 1, 3)], &second);
    assert_eq!(
        mesh.triangles(),
        &vec![UVec3::new(0, 1, 2), UVec3::new(3, 4, 5), UVec3::new(5, 4, 6)]
    );
    assert_eq!(mesh.vertices().len(), 7);
    assert_eq!(&mesh.vertices()[..3], &first);
    assert_eq!(&mesh.vertices()[3..], &second);
    for t in mesh.triangles().iter() {
        assert!((t.x as usize) < 7 && (t.y as usize) < 7 && (t.z as usize) < 7);
    }
    assert_eq!(
        mesh.get_vertices_from_triangle(UVec3::new(5, 4, 6)),
        [second[2], second[1], second[3]]
    );
    let single = Mesh::from_vertices(&[UVec3::new(2, 1, 0)], &first);
    assert_eq!(single.triangles(), &vec![UVec3::new(2, 1, 0)]);
    assert_eq!(single.vertices(), &first.to_vec());
    assert!(Mesh::default().triangles().is_empty());
}

#[test]
fn sections_are_built_from_attribute_buffers() {
    let positions = [Vec3::new(1, 2, 3), Vec3::new(4, 5, 6), Vec3::new(7, 8, 9)];
    let normals = [Vec3::new(0, 0, ONE), Vec3::new(0, ONE, 0), Vec3::new(ONE, 0, 0)];
    let colors = [Vec4::new(1, 1, 1, 1), Vec4::new(2, 2, 2, 2), Vec4::new(3, 3, 3, 3)];
    let uvs = [Vec2::new(0, 0), Vec2::new(ONE, 0), Vec2::new(0, ONE)];
    let faces = [UVec3::new(0, 1, 2)];
    let mut mesh = Mesh::new();
    mesh.add_section_from_buffers(&faces, &positions, &normals, &colors, &uvs);
    mesh.add_section_from_buffers(&faces, &positions, &normals, &[], &[]);
    assert_eq!(mesh.triangles(), &vec![UVec3::new(0, 1, 2), UVec3::new(3, 4, 5)]);
    let v = mesh.vertices();
    assert_eq!(v.len(), 6);
    for i in 0..3 {
        assert_eq!(v[i], Vertex::new(positions[i].extend(ONE), normals[i], colors[i], uvs[i]));
        assert_eq!(
            v[3 + i],
            Vertex::new(
                positions[i].extend(ONE),
                normals[i],
                Vec4::new(ONE, ONE, ONE, ONE),
                Vec2::new(ONE, ONE)
            )
        );
    }
}

#[test]
fn a_mesh_draws_its_faces_in_order() {
    let viewport = Viewport::new(64, 36).unwrap();
    let camera = scene_camera();
    let mvp = camera.projection().unwrap().mul_mat4(&camera.view().unwrap()).unwrap();
    let quad = unit_quad();
    let mesh = Mesh::from_vertices(&[UVec3::new(0, 1, 2), UVec3::new(0, 2, 3)], &quad.vertices);
    let model = Mat4::identity();
    let mut colors_mesh: Vec<u32> = vec![7; 64 * 36];
    let mut depths_mesh: Vec<i64> = vec![DEPTH_CLEAR; 64 * 36];
    mesh.draw(&mut colors_mesh, &mut depths_mesh, &model, &mvp, viewport);
    let mut colors_quad: Vec<u32> = vec![7; 64 * 36];
    let mut depths_quad: Vec<i64> = vec![DEPTH_CLEAR; 64 * 36];
    quad.draw(&mut colors_quad, &mut depths_quad, &model, &mvp, viewport);
    assert_eq!(colors_mesh, colors_quad);
    assert_eq!(depths_mesh, depths_quad);
    let mut colors_faces: Vec<u32> = vec![7; 64 * 36];
    let mut depths_faces: Vec<i64> = vec![DEPTH_CLEAR; 64 * 36];
    for face in mesh.triangles().iter() {
        Triangle::new(mesh.get_vertices_from_triangle(*face)).draw(
            &mut colors_faces,
            &mut depths_faces,
            &model,
            &mvp,
            viewport,
        );
    }
    assert_eq!(colors_mesh, colors_faces);
    assert_eq!(depths_mesh, depths_faces);
    let covered = colors_mesh.iter().filter(|&&c| c == 0xFFC6_C6C6).count();
    // the columns from 23 to 40 and the rows from 9 to 26
    assert_eq!(covered, 18 * 18);
    assert_eq!(colors_mesh[22 + 9 * 64], 7);
    assert_eq!(colors_mesh[23 + 8 * 64], 7);
    assert_eq!(colors_mesh[23 + 9 * 64], 0xFFC6_C6C6);
    assert_eq!(colors_mesh[40 + 26 * 64], 0xFFC6_C6C6);
    assert_eq!(colors_mesh[41 + 26 * 64], 7);
    assert_eq!(colors_mesh[40 + 27 * 64], 7);
}

#[test]
fn a_textured_mesh_shares_its_texture_with_its_faces() {
    let viewport = Viewport::new(64, 36).unwrap();
    let camera = scene_camera();
    let mvp = camera.projection().unwrap().mul_mat4(&camera.view().unwrap()).unwrap();
    let texture = Arc::new(Texture::new(1, 1, vec![0xFF00_FF00]).unwrap());
    let mut mesh = Mesh::new_with_texture(texture.clone());
    let faces = [UVec3::new(0, 1, 2), UVec3::new(0, 2, 3)];
    mesh.add_section_from_vertices(&faces, &unit_quad().vertices);
    let mut colors: Vec<u32> = vec![7; 64 * 36];
    let mut depths: Vec<i64> = vec![DEPTH_CLEAR; 64 * 36];
    mesh.draw(&mut colors, &mut depths, &Mat4::identity(), &mvp, viewport);
    assert_eq!(colors[32 + 18 * 64], 0xFF33_C633);
    let mut plain = Mesh::from_vertices(&[UVec3::new(0, 1, 2)], &unit_quad().vertices[..3]);
    plain.add_texture(texture.clone());
    let mut colors: Vec<u32> = vec![7; 64 * 36];
    let mut depths: Vec<i64> = vec![DEPTH_CLEAR; 64 * 36];
    plain.draw(&mut colors, &mut depths, &Mat4::identity(), &mvp, viewport);
    assert!(colors.iter().any(|&c| c == 0xFF33_C633));
    assert!(colors.iter().all(|&c| c == 7 || c == 0xFF33_C633));
    assert_eq!(Arc::strong_count(&texture), 3);
}

#[test]
fn areas_are_doubled_and_signed() {
    let quad = unit_quad();
    let t = Triangle::new([quad.vertices[0], quad.vertices[1], quad.vertices[2]]);
    let doubled = (2 * ONE as i128) * (2 * ONE as i128);
    assert_eq!(t.get_area().abs(), doubled);
    let turned = Triangle::new([quad.vertices[0], quad.vertices[2], quad.vertices[1]]);
    assert_eq!(turned.get_area(), -t.get_area());
    assert_eq!(quad.get_area(), i128::MAX);
    let mesh = Mesh::from_vertices(&[UVec3::new(0, 1, 2), UVec3::new(0, 2, 3)], &quad.vertices);
    assert_eq!(mesh.get_area(), 2 * t.get_area());
    assert_eq!(Mesh::new().get_area(), 0);
}

#[test]
fn a_model_places_its_meshes_by_its_pose() {
    let viewport = Viewport::new(64, 36).unwrap();
    let camera = scene_camera();
    let mvp = camera.projection().unwrap().mul_mat4(&camera.view().unwrap()).unwrap();
    let quad = unit_quad();
    let faces = [UVec3::new(0, 1, 2), UVec3::new(0, 2, 3)];
    let pose = Transform::new(
        Vec3::new(ONE, 0, -5 * ONE),
        Quat::identity(),
        Vec3::new(2 * ONE, ONE, ONE),
    );
    let model = Model::from_meshes(
        vec![Mesh::from_vertices(&faces, &quad.vertices), Mesh::new()],
        pose,
    );
    let mut colors: Vec<u32> = vec![7; 64 * 36];
    let mut depths: Vec<i64> = vec![DEPTH_CLEAR; 64 * 36];
    model.draw(&mut colors, &mut depths, &mvp, viewport);
    let local = pose.local().unwrap();
    let mut colors_mesh: Vec<u32> = vec![7; 64 * 36];
    let mut depths_mesh: Vec<i64> = vec![DEPTH_CLEAR; 64 * 36];
    let full = mvp.mul_mat4(&local).unwrap();
    model.meshes[0].draw(&mut colors_mesh, &mut depths_mesh, &local, &full, viewport);
    assert_eq!(colors, colors_mesh);
    assert_eq!(depths, depths_mesh);
    // twice as far away: ten units from the camera
    assert!(depths.iter().all(|&d| d == DEPTH_CLEAR || d == 595773));
    let drawn = depths.iter().filter(|&&d| d != DEPTH_CLEAR).count();
    assert!(drawn > 0);
    // the centre of the moved quad lies right of the middle of the screen
    let columns_drawn: Vec<usize> =
        (0..64).filter(|&px| depths[px + 18 * 64] != DEPTH_CLEAR).collect();
    assert!(columns_drawn.iter().sum::<usize>() > 32 * columns_drawn.len());
    // a pose whose matrix does not fit draws nothing
    let broken = Model::from_meshes(
        vec![Mesh::from_vertices(&faces, &quad.vertices)],
        Transform::new(Vec3::new(i32::MAX, 0, 0), Quat::identity(), Vec3::new(ONE, ONE, ONE)),
    );
    let mut colors: Vec<u32> = vec![7; 64 * 36];
    let mut depths: Vec<i64> = vec![DEPTH_CLEAR; 64 * 36];
    broken.draw(&mut colors, &mut depths, &mvp, viewport);
    assert_eq!(colors, vec![7; 64 * 36]);
}

#[test]
fn triangles_are_moved_by_a_matrix() {
    let quad = unit_quad();
    let t = Triangle::new([quad.vertices[0], quad.vertices[1], quad.vertices[2]]);
    let shift = Mat4::from_translation(Vec3::new(10 * ONE, -ONE, 3));
    let moved = t.transform(&shift).unwrap();
    for i in 0..3 {
        let p = t.vertices[i].position;
        assert_eq!(moved.vertices[i].position, Vec4::new(p.x + 10 * ONE, p.y - ONE, 3, ONE));
        assert_eq!(moved.vertices[i].normal, t.vertices[i].normal);
        assert_eq!(moved.vertices[i].color, t.vertices[i].color);
        assert_eq!(moved.vertices[i].uv, t.vertices[i].uv);
    }
    // positions are taken as points, whatever their last component holds
    let mut odd = t.clone();
    odd.vertices[0].position.w = 77;
    assert_eq!(odd.transform(&shift), Some(moved));
    let too_far = Mat4::from_translation(Vec3::new(i32::MAX, 0, 0));
    assert_eq!(t.transform(&too_far), None);
    assert_eq!(t.transform(&Mat4::identity()), Some(t.clone()));
}

#[test]
fn normals_are_moved_by_the_cofactors_of_the_model() {
    let quad = unit_quad();
    let mut t = Triangle::new([quad.vertices[0], quad.vertices[1], quad.vertices[2]]);
    t.vertices[1].normal = Vec3::new(ONE, ONE, ONE);
    let model = Mat4::from_scale(Vec3::new(2 * ONE, 3 * ONE, 4 * ONE));
    let clip = to_clip_space(&t, &model, &Mat4::identity()).unwrap();
    assert_eq!(clip.vertices[0].normal, Vec3::new(0, 0, 6 * ONE));
    assert_eq!(clip.vertices[1].normal, Vec3::new(12 * ONE, 8 * ONE, 6 * ONE));
    for i in 0..3 {
        assert_eq!(clip.vertices[i].position, t.vertices[i].position);
    }
    let huge = Mat4::from_scale(Vec3::new(i32::MAX, i32::MAX, ONE));
    assert_eq!(to_clip_space(&t, &huge, &Mat4::identity()), None);
    let big = Mat4::from_scale(Vec3::new(200 * ONE, 200 * ONE, ONE));
    assert!(to_clip_space(&t, &big, &Mat4::identity()).is_none());
    let too_far = Mat4::from_translation(Vec3::new(0, i32::MIN, 0));
    assert_eq!(to_clip_space(&t, &Mat4::identity(), &too_far), None);
}

#[test]
fn the_matrix_of_a_rotation() {
    assert_eq!(Mat4::from_quat(Quat::identity()), Mat4::identity());
    let half_turn = Mat4::from_quat(Quat::from_xyzw(0, ONE, 0, 0));
    assert_eq!(
        columns(&half_turn),
        [[-ONE, 0, 0, 0], [0, ONE, 0, 0], [0, 0, -ONE, 0], [0, 0, 0, ONE]]
    );
    // a third of a turn round the diagonal takes x to y, y to z and z to x
    let third = Mat4::from_quat(Quat::from_xyzw(ONE / 2, ONE / 2, ONE / 2, ONE / 2));
    assert_eq!(
        columns(&third),
        [[0, ONE, 0, 0], [0, 0, ONE, 0], [ONE, 0, 0, 0], [0, 0, 0, ONE]]
    );
    assert_eq!(
        columns(&Mat4::from_scale(Vec3::new(2, 3, 4))),
        [[2, 0, 0, 0], [0, 3, 0, 0], [0, 0, 4, 0], [0, 0, 0, ONE]]
    );
}

#[test]
fn normalized_rotations_have_unit_length() {
    let samples = [
        (1, 0, 0, 0),
        (1, 1, 1, 1),
        (3, -4, 12, -84),
        (ONE, 2 * ONE, -3 * ONE, 4 * ONE),
        (i32::MAX, i32::MIN, i32::MAX, i32::MIN),
        (0, 0, 1, i32::MAX),
        (-7, 0, 0, 9),
    ];
    for (x, y, z, w) in samples {
        let q = Quat::from_xyzw(x, y, z, w).normalize();
        let squares: i64 = [q.x, q.y, q.z, q.w].iter().map(|&c| c as i64 * c as i64).sum();
        assert!((squares - (1i64 << 32)).abs() <= 1 << 20, "{:?}", q);
        for c in [q.x, q.y, q.z, q.w] {
            assert!(c.abs() <= ONE);
        }
        let v = Vec3::new(x, y, z).normalize().unwrap();
        let squares: i64 = [v.x, v.y, v.z].iter().map(|&c| c as i64 * c as i64).sum();
        assert!((squares - (1i64 << 32)).abs() <= 1 << 20, "{:?}", v);
    }
}

#[test]
fn the_near_plane_has_the_depth_zero() {
    let cameras = [
        Camera::default(),
        scene_camera(),
        Camera { frustum_near: 3, frustum_far: 1000, ..Camera::default() },
        Camera { frustum_near: 12345, frustum_far: 7 * ONE + 11, ..Camera::default() },
    ];
    for camera in cameras {
        let p = camera.projection().unwrap();
        let near = camera.frustum_near;
        for (x, y) in [(0, 0), (ONE, -ONE), (-7, 33), (100 * ONE, 100 * ONE)] {
            let clip = p.mul_vec4(Vec4::new(x, y, -near, ONE)).unwrap();
            assert_eq!((clip.z, clip.w), (0, near), "{:?}", camera);
        }
        // just in front of the plane is not behind it
        let clip = p.mul_vec4(Vec4::new(0, 0, -near - 1, ONE)).unwrap();
        assert!(clip.z >= 0);
        // the far plane has the depth of its distance, up to the rounding of the matrix
        let far = camera.frustum_far;
        let clip = p.mul_vec4(Vec4::new(0, 0, -far, ONE)).unwrap();
        assert_eq!(clip.w, far);
        assert!(clip.z <= far && far - clip.z <= (far - near) / 65536 + 1, "{:?}", clip);
    }
    assert_eq!(
        columns(&Camera::default().projection().unwrap()),
        [[158218, 0, 0, 0], [0, 158218, 0, 0], [0, 0, -65601, -ONE], [0, 0, -6560, 0]]
    );
}

#[test]
fn a_triangle_in_the_near_plane_is_drawn() {
    let viewport = Viewport::new(8, 8).unwrap();
    let camera = Camera::default();
    let projection = camera.projection().unwrap();
    let near = camera.frustum_near;
    let at = |x: i32, y: i32| Vertex { position: Vec4::new(x, y, -near, ONE), ..corner(0, 0) };
    let t = Triangle::new([at(-near / 2, -near / 2), at(near / 2, -near / 2), at(0, near / 2)]);
    let mut colors: Vec<u32> = vec![7; 64];
    let mut depths: Vec<i64> = vec![DEPTH_CLEAR; 64];
    t.draw(&mut colors, &mut depths, &Mat4::identity(), &projection, viewport);
    assert!(depths.iter().any(|&d| d == 0));
    assert!(depths.iter().all(|&d| d == 0 || d == DEPTH_CLEAR));
}

#[test]
fn the_view_takes_the_eye_to_the_origin() {
    let poses = [
        (Vec3::new(1, 2, 3), Quat::from_xyzw(0, fixed(0.6), 0, fixed(0.8))),
        (Vec3::new(0, 0, 5 * ONE), Quat::from_xyzw(0, ONE, 0, 0)),
        (Vec3::new(-7 * ONE - 5, 3 * ONE + 1, 11 * ONE + 333), Quat::from_xyzw(3, -1, 4, 1)),
        (Vec3::new(12345, -54321, 999), Quat::from_xyzw(ONE, 2 * ONE, 3 * ONE, 4 * ONE)),
        (Vec3::new(0, 0, 0), Quat::identity()),
    ];
    for (eye, turn) in poses {
        let camera = Camera {
            transform: Transform::from_translation_rotation(eye, turn),
            ..Camera::default()
        };
        let view = camera.view().unwrap();
        assert_eq!(view.mul_vec4(eye.extend(ONE)), Some(Vec4::new(0, 0, 0, ONE)), "{:?}", eye);
        // what lies one step forward of the eye lies one step down the negative z axis
        let forward = camera.transform.forward();
        let ahead = Vec3::new(eye.x + forward.x, eye.y + forward.y, eye.z + forward.z);
        let seen = view.mul_vec4(ahead.extend(ONE)).unwrap();
        assert!(seen.x.abs() <= 16 && seen.y.abs() <= 16, "{:?}", seen);
        assert!((seen.z + ONE).abs() <= 16, "{:?}", seen);
    }
}
