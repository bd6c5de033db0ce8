use vstd::prelude::*;

use crate::material::MeshMaterial;

verus! {

/// A GPU-resident image, known to the scene by the handle under which the
/// renderer keeps its image view.
#[derive(Clone, Copy, Debug, PartialEq, Eq, Structural)]
pub struct Texture {
    pub handle: u64,
}

/// One drawable primitive: its GPU vertex and index buffers (by handle),
/// the material index that each of its vertices carries, its index list and
/// the material it was loaded with.
pub struct Mesh {
    pub vertex_buffer: u64,
    pub index_buffer: u64,
    pub vertices: Vec<u8>,
    pub indices: Vec<u32>,
    pub material_index: u8,
}

/// Whether every entry of `s` can grow by `offset` and still fit in a byte.
pub open spec fn bytes_can_shift(s: Seq<u8>, offset: u8) -> bool {
    forall|i: int| 0 <= i < s.len() ==> #[trigger] s[i] + offset <= u8::MAX
}

impl Mesh {
    /// The material index carried by each vertex.
    pub open spec fn vertex_materials(&self) -> Seq<u8> {
        self.vertices@
    }

    pub open spec fn index_list(&self) -> Seq<u32> {
        self.indices@
    }

    pub open spec fn material(&self) -> u8 {
        self.material_index
    }

    pub open spec fn can_shift(&self, offset: u8) -> bool {
        &&& bytes_can_shift(self.vertex_materials(), offset)
        &&& self.material() + offset <= u8::MAX
    }

    /// `self` is `old` with every material index moved by `offset`.
    pub open spec fn is_shift_of(&self, old: &Mesh, offset: u8) -> bool {
        &&& self.vertex_buffer == old.vertex_buffer
        &&& self.index_buffer == old.index_buffer
        &&& self.index_list() == old.index_list()
        &&& self.material() == old.material() + offset
        &&& self.vertex_materials().len() == old.vertex_materials().len()
        &&& forall|i: int|
            0 <= i < old.vertex_materials().len() ==> #[trigger] self.vertex_materials()[i]
                == old.vertex_materials()[i] + offset
    }

    /// A mesh whose `vertex_count` vertices all use `material_index`.
    pub fn new(
        vertex_buffer: u64,
        index_buffer: u64,
        vertex_count: usize,
        indices: Vec<u32>,
        material_index: u8,
    ) -> (r: Mesh)
        ensures
            r.vertex_buffer == vertex_buffer,
            r.index_buffer == index_buffer,
            r.vertex_materials() == Seq::new(vertex_count as nat, |i: int| material_index),
            r.index_list() == indices@,
            r.material() == material_index,
    {
        let mut vertices: Vec<u8> = Vec::new();
        let mut i: usize = 0;
        while i < vertex_count
            invariant
                i <= vertex_count,
                vertices@ == Seq::new(i as nat, |j: int| material_index),
            decreases vertex_count - i,
        {
            vertices.push(material_index);
            i = i + 1;
            assert(vertices@ =~= Seq::new(i as nat, |j: int| material_index));
        }
        Mesh { vertex_buffer, index_buffer, vertices, indices, material_index }
    }

    pub fn num_of_indices(&self) -> (r: u64)
        ensures
            r == self.index_list().len(),
    {
        self.indices.len() as u64
    }

    pub fn num_of_vertices(&self) -> (r: u64)
        ensures
            r == self.vertex_materials().len(),
    {
        self.vertices.len() as u64
    }

    pub fn indices(&self) -> (r: &Vec<u32>)
        ensures
            r@ == self.index_list(),
    {
        &self.indices
    }

    /// The material index carried by each vertex.
    pub fn vertex_material_indices(&self) -> (r: &Vec<u8>)
        ensures
            r@ == self.vertex_materials(),
    {
        &self.vertices
    }

    pub fn material_index(&self) -> (r: u8)
        ensures
            r == self.material(),
    {
        self.material_index
    }

    /// Moves the mesh's material index, and that of each of its vertices,
    /// by `scene_material_arr_len`.
    pub fn update_material_index(&mut self, scene_material_arr_len: u8)
        requires
            old(self).can_shift(scene_material_arr_len),
        ensures
            final(self).is_shift_of(old(self), scene_material_arr_len),
    {
        self.material_index = self.material_index + scene_material_arr_len;
        let n = self.vertices.len();
        let mut i: usize = 0;
        while i < n
            invariant
                n == old(self).vertices@.len(),
                self.vertices@.len() == n,
                i <= n,
                bytes_can_shift(old(self).vertices@, scene_material_arr_len),
                forall|j: int| 0 <= j < i ==> #[trigger] self.vertices@[j] == old(self).vertices@[j] + scene_material_arr_len,
                forall|j: int| i <= j < n ==> #[trigger] self.vertices@[j] == old(self).vertices@[j],
                self.indices == old(self).indices,
                self.vertex_buffer == old(self).vertex_buffer,
                self.index_buffer == old(self).index_buffer,
                self.material_index == old(self).material_index + scene_material_arr_len,
            decreases n - i,
        {
            let v = self.vertices[i];
            assert(old(self).vertices@[i as int] + scene_material_arr_len <= u8::MAX);
            self.vertices.set(i, v + scene_material_arr_len);
            i = i + 1;
        }
    }
}

/// One loaded asset: its meshes, textures and materials. Texture references
/// in the meshes and materials index this model's own lists until the model
/// is merged into a scene.
pub struct Model {
    pub meshes: Vec<Mesh>,
    pub textures: Vec<Texture>,
    pub materials: Vec<MeshMaterial>,
}

/// Total number of vertices of a list of meshes.
pub open spec fn meshes_vertex_count(meshes: Seq<Mesh>) -> int
    decreases meshes.len(),
{
    if meshes.len() == 0 {
        0
    } else {
        meshes_vertex_count(meshes.drop_last()) + meshes.last().vertex_materials().len()
    }
}

/// Total number of indices of a list of meshes.
pub open spec fn meshes_index_count(meshes: Seq<Mesh>) -> int
    decreases meshes.len(),
{
    if meshes.len() == 0 {
        0
    } else {
        meshes_index_count(meshes.drop_last()) + meshes.last().index_list().len()
    }
}

/// The index lists of a list of meshes, one after the other.
pub open spec fn meshes_indices(meshes: Seq<Mesh>) -> Seq<u32>
    decreases meshes.len(),
{
    if meshes.len() == 0 {
        Seq::empty()
    } else {
        meshes_indices(meshes.drop_last()) + meshes.last().index_list()
    }
}

/// The vertex buffer handles of a list of meshes, in order.
pub open spec fn meshes_vertex_buffers(meshes: Seq<Mesh>) -> Seq<u64> {
    meshes.map_values(|m: Mesh| m.vertex_buffer)
}

/// The index buffer handles of a list of meshes, in order.
pub open spec fn meshes_index_buffers(meshes: Seq<Mesh>) -> Seq<u64> {
    meshes.map_values(|m: Mesh| m.index_buffer)
}

pub proof fn lemma_meshes_indices_len(meshes: Seq<Mesh>)
    ensures
        meshes_indices(meshes).len() == meshes_index_count(meshes),
    decreases meshes.len(),
{
    if meshes.len() > 0 {
        lemma_meshes_indices_len(meshes.drop_last());
    }
}

} // verus!
