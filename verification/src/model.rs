//! A model: meshes that share one placement in the world.
use vstd::prelude::*;
use crate::matrix::Mat4;
use crate::mesh::Mesh;
use crate::object::Object;
use crate::raster::Frame;
use crate::screen::Viewport;
use crate::transform::Transform;

verus! {

/// Meshes and the pose that places them in the world.
pub struct Model {
    pub meshes: Vec<Mesh>,
    pub transform: Transform,
}

/// The frame after the first `n` meshes have been drawn into it in order.
pub open spec fn draw_meshes(
    meshes: Seq<Mesh>,
    n: nat,
    model: Mat4,
    mvp: Mat4,
    viewport: Viewport,
    frame: Frame,
) -> Frame
    decreases n,
{
    if n == 0 {
        frame
    } else {
        meshes[n - 1].drawn(
            model,
            mvp,
            viewport,
            draw_meshes(meshes, (n - 1) as nat, model, mvp, viewport, frame),
        )
    }
}

impl Model {
    /// Every mesh can be drawn, and the pose is well formed.
    pub open spec fn drawable(&self) -> bool {
        &&& self.transform.wf()
        &&& forall|i: int| 0 <= i < self.meshes@.len() ==> (#[trigger] self.meshes@[i]).drawable()
    }

    /// The frame after the model has been drawn into it, where `mvp` takes
    /// the world to clip space: every mesh is drawn with the pose's matrix for
    /// its normals and the product of `mvp` and the pose's matrix for its
    /// positions. Where one of the two matrices does not fit, nothing is drawn.
    pub open spec fn drawn(&self, mvp: Mat4, viewport: Viewport, frame: Frame) -> Frame {
        match self.transform.local_spec() {
            Some(local) => match mvp.mul_mat4_spec(local) {
                Some(full) => draw_meshes(
                    self.meshes@,
                    self.meshes@.len(),
                    local,
                    full,
                    viewport,
                    frame,
                ),
                None => frame,
            },
            None => frame,
        }
    }

    /// The model of the given meshes at the given pose.
    pub fn from_meshes(meshes: Vec<Mesh>, transform: Transform) -> (r: Model)
        ensures
            r.meshes@ == meshes@,
            r.transform == transform,
    {
        Model { meshes, transform }
    }

    /// Draws every mesh of the model.
    pub fn draw(
        &self,
        buffer: &mut Vec<u32>,
        depth_buffer: &mut Vec<i64>,
        mvp: &Mat4,
        viewport_size: Viewport,
    )
        requires
            self.drawable(),
            viewport_size.wf(),
            old(buffer)@.len() == viewport_size.area(),
            old(depth_buffer)@.len() == viewport_size.area(),
        ensures
            final(buffer)@.len() == old(buffer)@.len(),
            final(depth_buffer)@.len() == old(depth_buffer)@.len(),
            (Frame { colors: final(buffer)@, depths: final(depth_buffer)@ }) == self.drawn(
                *mvp,
                viewport_size,
                (Frame { colors: old(buffer)@, depths: old(depth_buffer)@ }),
            ),
    {
        let ghost before = Frame { colors: buffer@, depths: depth_buffer@ };
        let local = match self.transform.local() {
            Some(local) => local,
            None => { return ; },
        };
        let full = match mvp.mul_mat4(&local) {
            Some(full) => full,
            None => { return ; },
        };
        let mut k: usize = 0;
        while k < self.meshes.len()
            invariant
                k <= self.meshes@.len(),
                self.drawable(),
                viewport_size.wf(),
                buffer@.len() == viewport_size.area(),
                depth_buffer@.len() == viewport_size.area(),
                (Frame { colors: buffer@, depths: depth_buffer@ }) == draw_meshes(
                    self.meshes@,
                    k as nat,
                    local,
                    full,
                    viewport_size,
                    before,
                ),
            decreases self.meshes@.len() - k,
        {
            self.meshes[k].draw(buffer, depth_buffer, &local, &full, viewport_size);
            k += 1;
        }
    }
}

} // verus!
