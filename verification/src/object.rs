//! What can be drawn: the contract shared by triangles, quadrilaterals and
//! meshes, and its two simplest holders.
use vstd::prelude::*;
use std::sync::Arc;
use crate::geometry::{clip_cull_spec, clip_cull_triangle, ClipResult, Triangle, Vertex};
use crate::matrix::Mat4;
use crate::raster::{draw_spec, Frame};
use crate::screen::Viewport;
use crate::texture::Texture;
use crate::utils::{edge_fn, edge_spec};
use crate::vector::{Vec3, Vec4};

verus! {

/// Something that can be drawn into the colour and depth buffers of a viewport.
pub trait Object {
    /// The object can be drawn: its indices point at vertices it has.
    spec fn drawable(&self) -> bool;

    /// The frame after the object has been drawn into it, where `model` takes
    /// the object's normals to the world and `mvp` its positions to clip space.
    spec fn drawn(&self, model: Mat4, mvp: Mat4, viewport: Viewport, frame: Frame) -> Frame;

    /// The area of the object, doubled and signed.
    spec fn area_spec(&self) -> int;

    /// Draws the object.
    fn draw(
        &self,
        buffer: &mut Vec<u32>,
        depth_buffer: &mut Vec<i64>,
        model: &Mat4,
        mvp: &Mat4,
        viewport_size: Viewport,
    )
        requires
            self.drawable(),
            viewport_size.wf(),
            old(buffer)@.len() == viewport_size.area(),
            old(depth_buffer)@.len() == viewport_size.area(),
        ensures
            final(buffer)@.len() == old(buffer)@.len(),
            final(depth_buffer)@.len() == old(depth_buffer)@.len(),
            (Frame { colors: final(buffer)@, depths: final(depth_buffer)@ }) == self.drawn(
                *model,
                *mvp,
                viewport_size,
                (Frame { colors: old(buffer)@, depths: old(depth_buffer)@ }),
            ),
    ;

    /// The area of the object.
    fn get_area(&self) -> (r: i128)
        requires
            self.drawable(),
        ensures
            r == self.area_spec(),
    ;
}

/// The normal `n` transformed by the matrix `m`, as a direction; nothing
/// where a component does not fit.
pub open spec fn transform_normal_spec(m: Mat4, n: Vec3) -> Option<Vec3> {
    match m.mul_vec4_spec(Vec4 { x: n.x, y: n.y, z: n.z, w: 0 }) {
        Some(v) => Some((Vec3 { x: v.x, y: v.y, z: v.z })),
        None => None,
    }
}

fn transform_normal(m: &Mat4, n: Vec3) -> (r: Option<Vec3>)
    ensures
        r == transform_normal_spec(*m, n),
{
    match m.mul_vec4(n.extend(0)) {
        Some(v) => Some(v.xyz()),
        None => None,
    }
}

/// The triangle in clip space: its positions transformed by `mvp`, its
/// normals by the cofactors of `model`. Nothing where a coordinate does not fit.
pub open spec fn clip_space_spec(t: Triangle, model: Mat4, mvp: Mat4) -> Option<Triangle> {
    match (model.cofactor_spec(), t.transform_spec(mvp)) {
        (Some(c), Some(moved)) => match (
            transform_normal_spec(c, moved.vertices[0].normal),
            transform_normal_spec(c, moved.vertices[1].normal),
            transform_normal_spec(c, moved.vertices[2].normal),
        ) {
            (Some(n0), Some(n1), Some(n2)) => Some(
                (Triangle {
                    vertices: [
                        Vertex { normal: n0, ..moved.vertices[0] },
                        Vertex { normal: n1, ..moved.vertices[1] },
                        Vertex { normal: n2, ..moved.vertices[2] },
                    ],
                    texture: t.texture,
                }),
            ),
            _ => None,
        },
        _ => None,
    }
}

/// Computes [`clip_space_spec`].
pub fn to_clip_space(t: &Triangle, model: &Mat4, mvp: &Mat4) -> (r: Option<Triangle>)
    ensures
        r == clip_space_spec(*t, *model, *mvp),
{
    let cof_mat = match model.cofactor() {
        Some(c) => c,
        None => { return None; },
    };
    let moved = match t.transform(mvp) {
        Some(m) => m,
        None => { return None; },
    };
    let v0 = moved.vertices[0];
    let v1 = moved.vertices[1];
    let v2 = moved.vertices[2];
    let n0 = match transform_normal(&cof_mat, v0.normal) {
        Some(n) => n,
        None => { return None; },
    };
    let n1 = match transform_normal(&cof_mat, v1.normal) {
        Some(n) => n,
        None => { return None; },
    };
    let n2 = match transform_normal(&cof_mat, v2.normal) {
        Some(n) => n,
        None => { return None; },
    };
    let r = Triangle {
        vertices: [
            Vertex { position: v0.position, normal: n0, color: v0.color, uv: v0.uv },
            Vertex { position: v1.position, normal: n1, color: v1.color, uv: v1.uv },
            Vertex { position: v2.position, normal: n2, color: v2.color, uv: v2.uv },
        ],
        texture: moved.shared_texture(),
    };
    proof {
        let expected = Triangle {
            vertices: [
                Vertex { normal: n0, ..moved.vertices[0] },
                Vertex { normal: n1, ..moved.vertices[1] },
                Vertex { normal: n2, ..moved.vertices[2] },
            ],
            texture: t.texture,
        };
        assert(r.vertices == expected.vertices);
    }
    Some(r)
}

/// The frame after what clipping left of a triangle has been drawn into it.
pub open spec fn draw_clip_result_spec(r: ClipResult, viewport: Viewport, frame: Frame) -> Frame {
    match r {
        ClipResult::Empty => frame,
        ClipResult::One(t) => draw_spec(t, viewport, frame),
        ClipResult::Two((first, second)) => draw_spec(
            second,
            viewport,
            draw_spec(first, viewport, frame),
        ),
    }
}

/// The frame after a triangle has been taken to clip space, culled, clipped
/// and drawn. A triangle that cannot be taken to clip space leaves the frame
/// as it is.
pub open spec fn draw_triangle_spec(
    t: Triangle,
    model: Mat4,
    mvp: Mat4,
    viewport: Viewport,
    frame: Frame,
) -> Frame {
    match clip_space_spec(t, model, mvp) {
        Some(c) => draw_clip_result_spec(clip_cull_spec(c), viewport, frame),
        None => frame,
    }
}

impl Object for Triangle {
    open spec fn drawable(&self) -> bool {
        true
    }

    open spec fn drawn(&self, model: Mat4, mvp: Mat4, viewport: Viewport, frame: Frame) -> Frame {
        draw_triangle_spec(*self, model, mvp, viewport, frame)
    }

    open spec fn area_spec(&self) -> int {
        edge_spec(
            self.vertices[0].position.xy_spec(),
            self.vertices[1].position.xy_spec(),
            self.vertices[2].position.xy_spec(),
        )
    }

    fn draw(
        &self,
        buffer: &mut Vec<u32>,
        depth_buffer: &mut Vec<i64>,
        model: &Mat4,
        mvp: &Mat4,
        viewport_size: Viewport,
    ) {
        let clip_triangle = match to_clip_space(self, model, mvp) {
            Some(t) => t,
            None => { return ; },
        };
        match clip_cull_triangle(&clip_triangle) {
            ClipResult::Empty => {},
            ClipResult::One(tri) => {
                tri.draw_clipped(
                    buffer.as_mut_slice(),
                    depth_buffer.as_mut_slice(),
                    viewport_size,
                );
            },
            ClipResult::Two(tri) => {
                tri.0.draw_clipped(
                    buffer.as_mut_slice(),
                    depth_buffer.as_mut_slice(),
                    viewport_size,
                );
                tri.1.draw_clipped(
                    buffer.as_mut_slice(),
                    depth_buffer.as_mut_slice(),
                    viewport_size,
                );
            },
        }
    }

    fn get_area(&self) -> (r: i128) {
        edge_fn(
            self.vertices[0].position.xy(),
            self.vertices[1].position.xy(),
            self.vertices[2].position.xy(),
        )
    }
}

/// Four vertices and the six indices into them of two triangles.
#[derive(Debug, Clone, PartialEq, Eq)]
pub struct Quad {
    pub vertices: [Vertex; 4],
    pub indices: [u32; 6],
    pub texture: Option<Arc<Texture>>,
}

impl Quad {
    pub fn new(vertices: [Vertex; 4], indices: [u32; 6]) -> (r: Quad)
        ensures
            r == (Quad { vertices, indices, texture: None }),
    {
        Quad { vertices, indices, texture: None }
    }

    pub fn new_with_texture(vertices: [Vertex; 4], indices: [u32; 6], texture: Arc<Texture>) -> (r:
        Quad)
        ensures
            r == (Quad { vertices, indices, texture: Some(texture) }),
    {
        Quad { vertices, indices, texture: Some(texture) }
    }

    /// The triangle of the three indices that start at `first`.
    pub open spec fn face(self, first: int) -> Triangle {
        Triangle {
            vertices: [
                self.vertices[self.indices[first] as int],
                self.vertices[self.indices[first + 1] as int],
                self.vertices[self.indices[first + 2] as int],
            ],
            texture: self.texture,
        }
    }

    fn texture_handle(&self) -> (r: Option<Arc<Texture>>)
        ensures
            r == self.texture,
    {
        match &self.texture {
            Some(texture) => Some(texture.clone()),
            None => None,
        }
    }
}

impl Object for Quad {
    open spec fn drawable(&self) -> bool {
        forall|i: int| 0 <= i < 6 ==> #[trigger] self.indices[i] < 4
    }

    open spec fn drawn(&self, model: Mat4, mvp: Mat4, viewport: Viewport, frame: Frame) -> Frame {
        draw_triangle_spec(
            self.face(3),
            model,
            mvp,
            viewport,
            draw_triangle_spec(self.face(0), model, mvp, viewport, frame),
        )
    }

    open spec fn area_spec(&self) -> int {
        i128::MAX as int
    }

    fn draw(
        &self,
        buffer: &mut Vec<u32>,
        depth_buffer: &mut Vec<i64>,
        model: &Mat4,
        mvp: &Mat4,
        viewport_size: Viewport,
    ) {
        let triangle1 = Triangle {
            vertices: [
                self.vertices[self.indices[0] as usize],
                self.vertices[self.indices[1] as usize],
                self.vertices[self.indices[2] as usize],
            ],
            texture: self.texture_handle(),
        };
        let triangle2 = Triangle {
            vertices: [
                self.vertices[self.indices[3] as usize],
                self.vertices[self.indices[4] as usize],
                self.vertices[self.indices[5] as usize],
            ],
            texture: self.texture_handle(),
        };
        triangle1.draw(buffer, depth_buffer, model, mvp, viewport_size);
        triangle2.draw(buffer, depth_buffer, model, mvp, viewport_size);
    }

    /// A quadrilateral counts as unbounded.
    fn get_area(&self) -> (r: i128) {
        i128::MAX
    }
}

} // verus!
