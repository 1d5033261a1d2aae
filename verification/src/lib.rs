//! A CPU-only triangle rasterizer on fixed-point numbers.
//!
//! Triangles in the space of a model are taken to clip space, culled where
//! they face away or lie outside the view volume, clipped against the near
//! plane, and drawn into a colour buffer and a depth buffer pixel by pixel,
//! with perspective-correct interpolation, a depth test and texture sampling.
//!
//! Every scalar of the pipeline is a signed 32-bit number with sixteen
//! fractional bits, and every step is an exact computation on integers, so
//! that each function states what it returns down to the last bit. Where a
//! value leaves the range of the scalars the pipeline skips the triangle
//! rather than draw a wrong one.
//!
//! The modules, from the leaves up:
//! - [`fixed`], [`vector`], [`matrix`]: scalars, vectors and matrices;
//! - [`utils`]: pixel addressing, packed pixels, interpolation, edge functions;
//! - [`texture`]: images and how they are sampled;
//! - [`transform`], [`camera`]: poses, the lens, and their matrices;
//! - [`geometry`]: vertices, triangles, culling and clipping;
//! - [`screen`], [`fragment`], [`raster`]: projection, shading and drawing;
//! - [`object`], [`mesh`], [`model`]: what is drawn.
pub mod camera;
pub mod fixed;
pub mod fragment;
pub mod geometry;
pub mod matrix;
pub mod mesh;
pub mod model;
pub mod object;
pub mod raster;
pub mod screen;
pub mod texture;
pub mod transform;
pub mod utils;
pub mod vector;

pub use camera::{look_at, perspective, Camera};
pub use fixed::{div_floor, divide, isqrt, multiply, Ratio, FRAC_BITS, ONE};
pub use fragment::{
    fragment, interpolate, project, shade, weights, Fragment, Projected, Weights, AMBIENT,
    DEPTH_CLEAR, LIGHT, RECIPROCAL_ONE,
};
pub use geometry::{
    clip_cull_triangle, clip_triangle_near, clip_triangle_one, clip_triangle_two, cut,
    cull_triangle_backface, cull_triangle_view_frustum, order_for_clipping, ClipResult, Triangle,
    Vertex, VerticesOrder,
};
pub use matrix::Mat4;
pub use mesh::{section_is_valid, triangles_from_indices, Mesh, MESH_LIMIT};
pub use model::Model;
pub use object::{to_clip_space, Object, Quad};
pub use screen::{
    to_screen, triangle_screen_bounding_box, Viewport, AABB, MAX_DIMENSION, SCREEN_LIMIT,
    SUBPIXEL,
};
pub use texture::{unit_from_byte, Texture, SENTINEL};
pub use transform::{Quat, Transform, TransformInitialParams};
pub use utils::{
    barycentric_coordinates, clear_buffer, clear_screen, coords_to_index, edge_fn, from_argb8,
    index_to_coords, lerp, map_to_range, to_argb8, to_channel_byte, Barycentric, HEIGHT, WIDTH,
};
pub use vector::{UVec3, Vec2, Vec3, Vec4};
