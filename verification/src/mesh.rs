//! A mesh: faces as index triples into a shared pool of vertices.
use vstd::prelude::*;
use std::sync::Arc;
use crate::geometry::{Triangle, Vertex};
use crate::matrix::Mat4;
use crate::object::{draw_triangle_spec, Object};
use crate::raster::Frame;
use crate::screen::Viewport;
use crate::texture::Texture;
use crate::utils::lemma_edge_bound;
use crate::vector::{UVec3, Vec2, Vec3, Vec4};

verus! {

/// What a mesh holds.
pub struct MeshView {
    pub triangles: Seq<UVec3>,
    pub vertices: Seq<Vertex>,
    pub texture: Option<Arc<Texture>>,
}

/// The most faces, and the most vertices, that a mesh holds. An index has 32
/// bits, so that no more vertices could be pointed at; and with no more faces
/// the sum of their areas fits the 128 bits in which it is given.
pub const MESH_LIMIT: usize = 0xFFFF_FFFF;

/// Every index of the faces is below `count`.
pub open spec fn indices_below(triangles: Seq<UVec3>, count: int) -> bool {
    forall|k: int|
        0 <= k < triangles.len() ==> (#[trigger] triangles[k]).x < count && triangles[k].y < count
            && triangles[k].z < count
}

/// The face with `offset` added to each of its indices.
pub open spec fn shifted(t: UVec3, offset: int) -> UVec3 {
    UVec3 { x: (t.x + offset) as u32, y: (t.y + offset) as u32, z: (t.z + offset) as u32 }
}

/// The faces with `offset` added to each index.
pub open spec fn renumbered(triangles: Seq<UVec3>, offset: int) -> Seq<UVec3> {
    Seq::new(triangles.len(), |k: int| shifted(triangles[k], offset))
}

/// The vertex built from the `i`-th entries of the attribute buffers: white
/// where there are no colours, and the texture's far corner where there are
/// no texture coordinates.
pub open spec fn vertex_from_buffers(
    positions: Seq<Vec3>,
    normals: Seq<Vec3>,
    colors: Seq<Vec4>,
    uvs: Seq<Vec2>,
    i: int,
) -> Vertex {
    Vertex {
        position: Vec4 { x: positions[i].x, y: positions[i].y, z: positions[i].z, w: 65536 },
        normal: normals[i],
        color: if colors.len() > 0 {
            colors[i]
        } else {
            Vec4 { x: 65536, y: 65536, z: 65536, w: 65536 }
        },
        uv: if uvs.len() > 0 {
            uvs[i]
        } else {
            Vec2 { x: 65536, y: 65536 }
        },
    }
}

/// The vertices built from attribute buffers, one for each position.
pub open spec fn vertices_from_buffers(
    positions: Seq<Vec3>,
    normals: Seq<Vec3>,
    colors: Seq<Vec4>,
    uvs: Seq<Vec2>,
) -> Seq<Vertex> {
    Seq::new(positions.len(), |i: int| vertex_from_buffers(positions, normals, colors, uvs, i))
}

impl MeshView {
    /// Every index points at a vertex of the pool, and neither the faces nor
    /// the vertices are more than [`MESH_LIMIT`].
    pub open spec fn wf(self) -> bool {
        &&& indices_below(self.triangles, self.vertices.len() as int)
        &&& self.triangles.len() <= MESH_LIMIT
        &&& self.vertices.len() <= MESH_LIMIT
    }

    /// The `k`-th face as a triangle.
    pub open spec fn face(self, k: int) -> Triangle {
        Triangle {
            vertices: [
                self.vertices[self.triangles[k].x as int],
                self.vertices[self.triangles[k].y as int],
                self.vertices[self.triangles[k].z as int],
            ],
            texture: self.texture,
        }
    }

    /// The frame after the first `n` faces have been drawn into it in order.
    pub open spec fn draw_faces(
        self,
        n: nat,
        model: Mat4,
        mvp: Mat4,
        viewport: Viewport,
        frame: Frame,
    ) -> Frame
        decreases n,
    {
        if n == 0 {
            frame
        } else {
            draw_triangle_spec(
                self.face(n - 1),
                model,
                mvp,
                viewport,
                self.draw_faces((n - 1) as nat, model, mvp, viewport, frame),
            )
        }
    }

    /// The sum of the doubled signed areas of the first `n` faces.
    pub open spec fn area_of_faces(self, n: nat) -> int
        decreases n,
    {
        if n == 0 {
            0
        } else {
            self.area_of_faces((n - 1) as nat) + self.face(n - 1).area_spec()
        }
    }
}

/// Faces, the pool of vertices that they index, and the texture they share.
#[derive(Debug, Clone)]
pub struct Mesh {
    triangles: Vec<UVec3>,
    vertices: Vec<Vertex>,
    texture: Option<Arc<Texture>>,
}

impl View for Mesh {
    type V = MeshView;

    closed spec fn view(&self) -> MeshView {
        MeshView { triangles: self.triangles@, vertices: self.vertices@, texture: self.texture }
    }
}

/// The faces that a list of indices describes, three indices to a face;
/// indices left over at the end describe none.
pub open spec fn faces_of(indices: Seq<u32>) -> Seq<UVec3> {
    Seq::new(
        (indices.len() / 3) as nat,
        |k: int| UVec3 { x: indices[3 * k], y: indices[3 * k + 1], z: indices[3 * k + 2] },
    )
}

/// Computes [`faces_of`].
pub fn triangles_from_indices(indices: &[u32]) -> (r: Vec<UVec3>)
    ensures
        r@ == faces_of(indices@),
{
    let len = indices.len();
    let count = len / 3;
    let mut faces: Vec<UVec3> = Vec::new();
    let mut k: usize = 0;
    while k < count
        invariant
            k <= count,
            len == indices@.len(),
            count == len / 3,
            faces@.len() == k,
            forall|j: int| 0 <= j < k ==> #[trigger] faces@[j] == faces_of(indices@)[j],
        decreases count - k,
    {
        faces.push(UVec3 { x: indices[3 * k], y: indices[3 * k + 1], z: indices[3 * k + 2] });
        k += 1;
    }
    assert(faces@ =~= faces_of(indices@));
    faces
}

/// Whether every index of the faces is below `count`.
pub fn section_is_valid(triangles: &[UVec3], count: usize) -> (r: bool)
    ensures
        r == indices_below(triangles@, count as int),
{
    let mut k: usize = 0;
    while k < triangles.len()
        invariant
            k <= triangles@.len(),
            indices_below(triangles@.take(k as int), count as int),
        decreases triangles@.len() - k,
    {
        let t = triangles[k];
        if t.x as usize >= count || t.y as usize >= count || t.z as usize >= count {
            return false;
        }
        assert forall|j: int| 0 <= j < k + 1 implies (#[trigger] triangles@.take(k + 1)[j]).x
            < count && triangles@.take(k + 1)[j].y < count && triangles@.take(k + 1)[j].z
            < count by {
            if j < k {
                assert(triangles@.take(k + 1)[j] == triangles@.take(k as int)[j]);
            }
        }
        k += 1;
    }
    assert(triangles@.take(k as int) =~= triangles@);
    true
}

impl Mesh {
    /// A mesh without faces.
    pub fn new() -> (r: Mesh)
        ensures
            r@.triangles.len() == 0,
            r@.vertices.len() == 0,
            r@.texture is None,
            r@.wf(),
    {
        Mesh { triangles: Vec::new(), vertices: Vec::new(), texture: None }
    }

    /// A mesh without faces that already has its texture.
    pub fn new_with_texture(texture: Arc<Texture>) -> (r: Mesh)
        ensures
            r@.triangles.len() == 0,
            r@.vertices.len() == 0,
            r@.texture == Some(texture),
            r@.wf(),
    {
        Mesh { triangles: Vec::new(), vertices: Vec::new(), texture: Some(texture) }
    }

    /// The faces.
    pub fn triangles(&self) -> (r: &Vec<UVec3>)
        ensures
            r@ == self@.triangles,
    {
        &self.triangles
    }

    /// The pool of vertices.
    pub fn vertices(&self) -> (r: &Vec<Vertex>)
        ensures
            r@ == self@.vertices,
    {
        &self.vertices
    }

    /// The three vertices that a face points at.
    pub fn get_vertices_from_triangle(&self, triangle: UVec3) -> (r: [Vertex; 3])
        requires
            triangle.x < self@.vertices.len(),
            triangle.y < self@.vertices.len(),
            triangle.z < self@.vertices.len(),
        ensures
            r == [
                self@.vertices[triangle.x as int],
                self@.vertices[triangle.y as int],
                self@.vertices[triangle.z as int],
            ],
    {
        [
            self.vertices[triangle.x as usize],
            self.vertices[triangle.y as usize],
            self.vertices[triangle.z as usize],
        ]
    }

    /// The mesh of one section.
    pub fn from_vertices(triangles: &[UVec3], vertices: &[Vertex]) -> (r: Mesh)
        requires
            indices_below(triangles@, vertices@.len() as int),
            triangles@.len() <= MESH_LIMIT,
            vertices@.len() <= MESH_LIMIT,
        ensures
            r@.wf(),
            r@.triangles == triangles@,
            r@.vertices == vertices@,
            r@.texture is None,
    {
        let mut mesh = Mesh::new();
        mesh.add_section_from_vertices(triangles, vertices);
        proof {
            assert(renumbered(triangles@, 0) =~= triangles@);
            assert(mesh@.triangles =~= triangles@);
            assert(mesh@.vertices =~= vertices@);
        }
        mesh
    }

    /// Gives the mesh its texture.
    pub fn add_texture(&mut self, texture: Arc<Texture>)
        ensures
            final(self)@ == (MeshView { texture: Some(texture), ..old(self)@ }),
    {
        self.texture = Some(texture);
    }

    fn push_renumbered(&mut self, triangles: &[UVec3], count: usize)
        requires
            old(self)@.wf(),
            indices_below(triangles@, count as int),
            old(self)@.triangles.len() + triangles@.len() <= MESH_LIMIT,
            old(self)@.vertices.len() + count <= MESH_LIMIT,
        ensures
            final(self)@ == (MeshView {
                triangles: old(self)@.triangles + renumbered(
                    triangles@,
                    old(self)@.vertices.len() as int,
                ),
                ..old(self)@
            }),
    {
        let offset = self.vertices.len() as u32;
        let ghost before = self.triangles@;
        let mut k: usize = 0;
        while k < triangles.len()
            invariant
                k <= triangles@.len(),
                offset == self.vertices@.len(),
                offset + count <= MESH_LIMIT,
                indices_below(triangles@, count as int),
                self.vertices@ == old(self).vertices@,
                self.texture == old(self).texture,
                self.triangles@ == before + renumbered(triangles@.take(k as int), offset as int),
            decreases triangles@.len() - k,
        {
            let t = triangles[k];
            self.triangles.push(UVec3 { x: t.x + offset, y: t.y + offset, z: t.z + offset });
            proof {
                assert(triangles@.take(k + 1) =~= triangles@.take(k as int).push(t));
                assert(self.triangles@ =~= before + renumbered(
                    triangles@.take(k + 1),
                    offset as int,
                ));
            }
            k += 1;
        }
        proof {
            assert(triangles@.take(k as int) =~= triangles@);
        }
    }

    /// Adds a section: its faces, with the number of vertices that the mesh
    /// already has added to each index, and its vertices.
    pub fn add_section_from_vertices(&mut self, triangles: &[UVec3], vertices: &[Vertex])
        requires
            old(self)@.wf(),
            indices_below(triangles@, vertices@.len() as int),
            old(self)@.triangles.len() + triangles@.len() <= MESH_LIMIT,
            old(self)@.vertices.len() + vertices@.len() <= MESH_LIMIT,
        ensures
            final(self)@.wf(),
            final(self)@ == (MeshView {
                triangles: old(self)@.triangles + renumbered(
                    triangles@,
                    old(self)@.vertices.len() as int,
                ),
                vertices: old(self)@.vertices + vertices@,
                texture: old(self)@.texture,
            }),
    {
        self.push_renumbered(triangles, vertices.len());
        let ghost middle = self.vertices@;
        let mut i: usize = 0;
        while i < vertices.len()
            invariant
                i <= vertices@.len(),
                self.triangles@ == old(self).triangles@ + renumbered(
                    triangles@,
                    old(self).vertices@.len() as int,
                ),
                self.texture == old(self).texture,
                middle == old(self).vertices@,
                self.vertices@ == middle + vertices@.take(i as int),
            decreases vertices@.len() - i,
        {
            self.vertices.push(vertices[i]);
            proof {
                assert(vertices@.take(i + 1) =~= vertices@.take(i as int).push(
                    vertices@[i as int],
                ));
                assert(self.vertices@ =~= middle + vertices@.take(i + 1));
            }
            i += 1;
        }
        proof {
            assert(vertices@.take(i as int) =~= vertices@);
        }
    }

    /// Adds a section given as separate buffers of positions, normals,
    /// colours and texture coordinates.
    pub fn add_section_from_buffers(
        &mut self,
        triangles: &[UVec3],
        positions: &[Vec3],
        normals: &[Vec3],
        colors: &[Vec4],
        uvs: &[Vec2],
    )
        requires
            old(self)@.wf(),
            indices_below(triangles@, positions@.len() as int),
            old(self)@.triangles.len() + triangles@.len() <= MESH_LIMIT,
            old(self)@.vertices.len() + positions@.len() <= MESH_LIMIT,
            normals@.len() >= positions@.len(),
            colors@.len() == 0 || colors@.len() >= positions@.len(),
            uvs@.len() == 0 || uvs@.len() >= positions@.len(),
        ensures
            final(self)@.wf(),
            final(self)@ == (MeshView {
                triangles: old(self)@.triangles + renumbered(
                    triangles@,
                    old(self)@.vertices.len() as int,
                ),
                vertices: old(self)@.vertices + vertices_from_buffers(
                    positions@,
                    normals@,
                    colors@,
                    uvs@,
                ),
                texture: old(self)@.texture,
            }),
    {
        self.push_renumbered(triangles, positions.len());
        let has_uvs = uvs.len() > 0;
        let has_colors = colors.len() > 0;
        let ghost middle = self.vertices@;
        let ghost built = vertices_from_buffers(positions@, normals@, colors@, uvs@);
        let mut i: usize = 0;
        while i < positions.len()
            invariant
                i <= positions@.len(),
                has_uvs == (uvs@.len() > 0),
                has_colors == (colors@.len() > 0),
                normals@.len() >= positions@.len(),
                colors@.len() == 0 || colors@.len() >= positions@.len(),
                uvs@.len() == 0 || uvs@.len() >= positions@.len(),
                built == vertices_from_buffers(positions@, normals@, colors@, uvs@),
                self.triangles@ == old(self).triangles@ + renumbered(
                    triangles@,
                    old(self).vertices@.len() as int,
                ),
                self.texture == old(self).texture,
                middle == old(self).vertices@,
                self.vertices@ == middle + built.take(i as int),
            decreases positions@.len() - i,
        {
            let vertex = Vertex::new(
                positions[i].extend(65536),
                normals[i],
                if has_colors {
                    colors[i]
                } else {
                    Vec4 { x: 65536, y: 65536, z: 65536, w: 65536 }
                },
                if has_uvs {
                    uvs[i]
                } else {
                    Vec2 { x: 65536, y: 65536 }
                },
            );
            self.vertices.push(vertex);
            proof {
                assert(built.take(i + 1) =~= built.take(i as int).push(built[i as int]));
                assert(self.vertices@ =~= middle + built.take(i + 1));
            }
            i += 1;
        }
        proof {
            assert(built.take(i as int) =~= built);
        }
    }

    fn texture_handle(&self) -> (r: Option<Arc<Texture>>)
        ensures
            r == self@.texture,
    {
        match &self.texture {
            Some(texture) => Some(texture.clone()),
            None => None,
        }
    }
}

impl Default for Mesh {
    fn default() -> (r: Mesh)
        ensures
            r@.triangles.len() == 0,
            r@.vertices.len() == 0,
            r@.texture is None,
            r@.wf(),
    {
        Mesh::new()
    }
}

impl Object for Mesh {
    open spec fn drawable(&self) -> bool {
        self@.wf()
    }

    open spec fn drawn(&self, model: Mat4, mvp: Mat4, viewport: Viewport, frame: Frame) -> Frame {
        self@.draw_faces(self@.triangles.len(), model, mvp, viewport, frame)
    }

    open spec fn area_spec(&self) -> int {
        self@.area_of_faces(self@.triangles.len())
    }

    fn draw(
        &self,
        buffer: &mut Vec<u32>,
        depth_buffer: &mut Vec<i64>,
        model: &Mat4,
        mvp: &Mat4,
        viewport_size: Viewport,
    ) {
        let ghost before = Frame { colors: buffer@, depths: depth_buffer@ };
        let mut k: usize = 0;
        while k < self.triangles.len()
            invariant
                k <= self.triangles@.len(),
                self@.wf(),
                viewport_size.wf(),
                buffer@.len() == viewport_size.area(),
                depth_buffer@.len() == viewport_size.area(),
                buffer@.len() == before.colors.len(),
                depth_buffer@.len() == before.depths.len(),
                (Frame { colors: buffer@, depths: depth_buffer@ }) == self@.draw_faces(
                    k as nat,
                    *model,
                    *mvp,
                    viewport_size,
                    before,
                ),
            decreases self.triangles@.len() - k,
        {
            let triangle_indices = self.triangles[k];
            let triangle_vertices = self.get_vertices_from_triangle(triangle_indices);
            let triangle = Triangle {
                vertices: triangle_vertices,
                texture: self.texture_handle(),
            };
            assert(triangle == self@.face(k as int));
            triangle.draw(buffer, depth_buffer, model, mvp, viewport_size);
            k += 1;
        }
    }

    fn get_area(&self) -> (r: i128) {
        let mut area: i128 = 0;
        let mut k: usize = 0;
        while k < self.triangles.len()
            invariant
                k <= self.triangles@.len(),
                self@.wf(),
                area == self@.area_of_faces(k as nat),
                -0x2_0000_0000_0000_0000 * k <= area <= 0x2_0000_0000_0000_0000 * k,
            decreases self.triangles@.len() - k,
        {
            let triangle_indices = self.triangles[k];
            let v = self.get_vertices_from_triangle(triangle_indices);
            proof {
                lemma_edge_bound(
                    v[0].position.xy_spec(),
                    v[1].position.xy_spec(),
                    v[2].position.xy_spec(),
                );
            }
            let triangle = Triangle::new(v);
            assert(triangle.area_spec() == self@.face(k as int).area_spec());
            area = area + triangle.get_area();
            k += 1;
        }
        area
    }
}

/// The faces of a section that has been added to a mesh are the faces that
/// the section had of its own: renumbering makes every index point at the
/// vertex that it pointed at in the section.
pub proof fn lemma_section_keeps_faces(
    before: MeshView,
    triangles: Seq<UVec3>,
    vertices: Seq<Vertex>,
    k: int,
)
    requires
        before.wf(),
        indices_below(triangles, vertices.len() as int),
        before.vertices.len() + vertices.len() <= MESH_LIMIT,
        0 <= k < triangles.len(),
    ensures
        ({
            let after = MeshView {
                triangles: before.triangles + renumbered(triangles, before.vertices.len() as int),
                vertices: before.vertices + vertices,
                texture: before.texture,
            };
            let section = MeshView { triangles, vertices, texture: before.texture };
            &&& after.face(before.triangles.len() + k) == section.face(k)
            &&& forall|j: int| 0 <= j < before.triangles.len() ==> after.face(j) == before.face(j)
            &&& indices_below(after.triangles, after.vertices.len() as int)
        }),
{
    let offset = before.vertices.len() as int;
    let after = MeshView {
        triangles: before.triangles + renumbered(triangles, offset),
        vertices: before.vertices + vertices,
        texture: before.texture,
    };
    let t = triangles[k];
    assert(after.triangles[before.triangles.len() + k] == shifted(t, offset));
    assert(after.vertices[t.x + offset] == vertices[t.x as int]);
    assert(after.vertices[t.y + offset] == vertices[t.y as int]);
    assert(after.vertices[t.z + offset] == vertices[t.z as int]);
    assert forall|j: int| 0 <= j < before.triangles.len() implies after.face(j) == before.face(
        j,
    ) by {
        let f = before.triangles[j];
        assert(after.triangles[j] == f);
        assert(after.vertices[f.x as int] == before.vertices[f.x as int]);
        assert(after.vertices[f.y as int] == before.vertices[f.y as int]);
        assert(after.vertices[f.z as int] == before.vertices[f.z as int]);
    }
    assert forall|j: int| 0 <= j < after.triangles.len() implies (#[trigger] after.triangles[j]).x
        < after.vertices.len() && after.triangles[j].y < after.vertices.len()
        && after.triangles[j].z < after.vertices.len() by {
        if j >= before.triangles.len() {
            let f = triangles[j - before.triangles.len()];
            assert(after.triangles[j] == shifted(f, offset));
        } else {
            assert(after.triangles[j] == before.triangles[j]);
        }
    }
}

} // verus!
