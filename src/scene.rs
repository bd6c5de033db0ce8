use vstd::prelude::*;

use crate::material::{shifted, GpuMaterial, MeshMaterial};
use crate::model::{meshes_index_count, meshes_vertex_count, Mesh, Model, Texture};
use crate::node::{lemma_aggregate_consistency, Node};
use crate::ordered_map::{
    is_insert_of, lemma_key_order_is_domain, OrderedMap, OrderedMaterialsMap, OrderedTexturesMap,
};

verus! {

/// Width of the output frame when none is given.
pub const DEFAULT_WIDTH: u32 = 1920;

/// Height of the output frame when none is given.
pub const DEFAULT_HEIGHT: u32 = 1080;

/// Id of the root node of every scene.
pub const SCENE_ROOT_ID: u32 = 0;

/// Why a scene cannot be built.
#[derive(Clone, Copy, Debug, PartialEq, Eq, Structural)]
pub enum SceneError {
    /// The output frame is chroma-subsampled two by two, so both of its
    /// sides must be even.
    OddDimensions { width: u32, height: u32 },
}

/// Whether an output frame of this size can be produced.
pub open spec fn dimensions_ok(width: u32, height: u32) -> bool {
    width % 2 == 0 && height % 2 == 0
}

/// Checks that both sides of the output frame are even.
pub fn validate_output_dimensions(width: u32, height: u32) -> (r: Result<(), SceneError>)
    ensures
        r is Ok <==> dimensions_ok(width, height),
        r is Err ==> r == Err::<(), SceneError>(SceneError::OddDimensions { width, height }),
{
    if height % 2 != 0 || width % 2 != 0 {
        Err(SceneError::OddDimensions { width, height })
    } else {
        Ok(())
    }
}

/// Largest number of textures that the texture descriptor array can hold.
pub const MAX_DESCRIPTOR_COUNT: u32 = 15;

/// Descriptor set of the camera and materials.
pub const MAIN_SET: usize = 0;

/// Descriptor set of the texture array.
pub const TEXTURE_SET: usize = 1;

/// Why the pipeline cannot draw the scene.
#[derive(Clone, Copy, Debug, PartialEq, Eq, Structural)]
pub enum PipelineBuildError {
    /// The pipeline layout has no camera and material set.
    MissingMainSet,
    /// The pipeline layout has no texture set.
    MissingTextureSet,
    /// The scene holds more textures than the texture array takes.
    TooManyTextures { count: u32 },
}

/// Why a frame cannot be produced.
#[derive(Clone, Copy, Debug, PartialEq, Eq, Structural)]
pub enum FrameError {
    /// No camera data was supplied for this tick.
    CameraNotUpdated,
    Pipeline(PipelineBuildError),
    /// The merged index count does not fit a single indexed draw.
    TooManyIndices { count: u64 },
    /// The read-back color buffer does not hold `width * height * 4` bytes.
    ReadbackSizeMismatch { width: u32, height: u32, actual: u64 },
    /// The channel that feeds input to the render loop has closed.
    InputDisconnected,
}

/// Everything one indexed draw of the whole scene needs: per mesh its
/// vertex and index buffer handles, the merged index list and its length,
/// the GPU records of the global materials and the global texture handles,
/// both in slot order.
pub struct DrawBatch {
    pub vertex_buffers: Vec<u64>,
    pub index_buffers: Vec<u64>,
    pub indices: Vec<u32>,
    pub index_count: u32,
    pub materials: Vec<GpuMaterial>,
    pub textures: Vec<u64>,
}

/// Keys `0 .. n` in order: the map was filled one slot after another.
pub open spec fn dense_keys(order: Seq<u8>) -> bool {
    &&& order.len() <= u8::MAX
    &&& forall|i: int| 0 <= i < order.len() ==> #[trigger] order[i] == i
}

/// `new` is `old` after it was merged into a scene that held `offset`
/// textures: the textures are unchanged, and every material index of a
/// mesh and every texture reference of a material moved by `offset`.
pub open spec fn is_remap_of(new: Model, old: Model, offset: u8) -> bool {
    &&& new.textures@ == old.textures@
    &&& new.meshes@.len() == old.meshes@.len()
    &&& forall|i: int|
        0 <= i < old.meshes@.len() ==> (#[trigger] new.meshes@[i]).is_shift_of(&old.meshes@[i], offset)
    &&& new.materials@.len() == old.materials@.len()
    &&& forall|j: int|
        0 <= j < old.materials@.len() ==> (#[trigger] new.materials@[j]).is_shift_of(
            &old.materials@[j],
            offset,
        )
}

/// Whether `model` can be merged into a scene that holds `textures`
/// textures and `materials` materials: the global slots still fit in a
/// byte, and so does every moved index.
pub open spec fn can_merge(model: Model, textures: int, materials: int) -> bool {
    &&& textures + model.textures@.len() <= u8::MAX
    &&& materials + model.materials@.len() <= u8::MAX
    &&& forall|i: int| 0 <= i < model.meshes@.len() ==> (#[trigger] model.meshes@[i]).can_shift(textures as u8)
    &&& forall|j: int|
        0 <= j < model.materials@.len() ==> (#[trigger] model.materials@[j]).can_shift(textures as u8)
    &&& meshes_vertex_count(model.meshes@) <= u64::MAX
    &&& meshes_index_count(model.meshes@) <= u64::MAX
}

/// Merging model `b` into a scene that first received model `a` (and
/// nothing else) moves every per-vertex material index and every mesh
/// material index of `b`, and every present texture reference of each of
/// `b`'s materials, both in the node's copy and in the global material map,
/// by exactly the number of textures `a` brought, the scene's texture count
/// before `b` was merged.
pub proof fn lemma_second_model_offset(s0: Scene, a: Model, s1: Scene, b: Model, s2: Scene, rb: Model)
    requires
        s0.wf(),
        s1.wf(),
        s2.wf(),
        s0.texture_count() == 0,
        s0.material_count() == 0,
        s1.is_merge_of(&s0, a),
        s2.is_merge_of(&s1, b),
        is_remap_of(rb, b, s1.texture_count() as u8),
    ensures
        s1.texture_count() == a.textures@.len(),
        rb.meshes@.len() == b.meshes@.len(),
        forall|i: int, v: int|
            0 <= i < b.meshes@.len() && 0 <= v < b.meshes@[i].vertex_materials().len() ==> (
            #[trigger] rb.meshes@[i].vertex_materials()[v]) == b.meshes@[i].vertex_materials()[v]
                + a.textures@.len(),
        forall|i: int|
            0 <= i < b.meshes@.len() ==> (#[trigger] rb.meshes@[i]).material() == b.meshes@[i].material()
                + a.textures@.len(),
        forall|j: int, k: int|
            0 <= j < b.materials@.len() && 0 <= k < 11 ==> (
            #[trigger] rb.materials@[j].texture_slots()[k]) == shifted(
                b.materials@[j].texture_slots()[k],
                a.textures@.len() as u8,
            ),
        forall|j: int, k: int|
            0 <= j < b.materials@.len() && 0 <= k < 11 ==> (#[trigger] s2.material_at(
                a.materials@.len() + j,
            ).texture_slots()[k]) == shifted(b.materials@[j].texture_slots()[k], a.textures@.len() as u8),
{
    assert forall|i: int, v: int|
        0 <= i < b.meshes@.len() && 0 <= v < b.meshes@[i].vertex_materials().len() implies (
        #[trigger] rb.meshes@[i].vertex_materials()[v]) == b.meshes@[i].vertex_materials()[v]
            + a.textures@.len() by {
        assert(rb.meshes@[i].is_shift_of(&b.meshes@[i], s1.texture_count() as u8));
    }
    assert forall|i: int| 0 <= i < b.meshes@.len() implies (#[trigger] rb.meshes@[i]).material()
        == b.meshes@[i].material() + a.textures@.len() by {
        assert(rb.meshes@[i].is_shift_of(&b.meshes@[i], s1.texture_count() as u8));
    }
    assert forall|j: int, k: int| 0 <= j < b.materials@.len() && 0 <= k < 11 implies (
    #[trigger] rb.materials@[j].texture_slots()[k]) == shifted(
        b.materials@[j].texture_slots()[k],
        a.textures@.len() as u8,
    ) by {
        assert(rb.materials@[j].is_shift_of(&b.materials@[j], s1.texture_count() as u8));
    }
    assert forall|j: int, k: int| 0 <= j < b.materials@.len() && 0 <= k < 11 implies (
    #[trigger] s2.material_at(a.materials@.len() + j).texture_slots()[k]) == shifted(
        b.materials@[j].texture_slots()[k],
        a.textures@.len() as u8,
    ) by {
        assert(s2.material_at(s1.material_count() + j).is_shift_of(
            &b.materials@[j],
            s1.texture_count() as u8,
        ));
    }
}

/// The next slot of a map filled one slot after another holds nothing yet.
proof fn lemma_next_slot_free<V>(m: &OrderedMap<V>)
    requires
        m.wf(),
        dense_keys(m.key_order()),
        m.key_order().len() < u8::MAX,
    ensures
        !m.entries().contains_key(m.key_order().len() as u8),
{
    lemma_key_order_is_domain(m);
    let key = m.key_order().len() as u8;
    if m.key_order().contains(key) {
        let p = choose|p: int| 0 <= p < m.key_order().len() && m.key_order()[p] == key;
        assert(m.key_order()[p] == p);
    }
}

/// Filling the next free slot keeps the slots dense.
proof fn lemma_fill_next_slot<V>(after: OrderedMap<V>, before: OrderedMap<V>, value: V)
    requires
        dense_keys(before.key_order()),
        before.key_order().len() < u8::MAX,
        !before.entries().contains_key(before.key_order().len() as u8),
        is_insert_of(after, before, before.key_order().len() as u8, value),
    ensures
        dense_keys(after.key_order()),
        after.key_order().len() == before.key_order().len() + 1,
{
    let order = after.key_order();
    assert forall|q: int| 0 <= q < order.len() implies #[trigger] order[q] == q by {
        if q == order.len() - 1 {
            assert(order[q] == before.key_order().len() as u8);
        } else {
            assert(order[q] == before.key_order()[q]);
        }
    }
}

/// In a well-formed scene both global maps are well formed and filled one
/// slot after another: slot `i` is walked `i`-th, for every slot.
pub proof fn lemma_scene_slots(s: &Scene)
    requires
        s.wf(),
    ensures
        s.spec_textures().wf(),
        s.spec_materials().wf(),
        dense_keys(s.spec_textures().key_order()),
        dense_keys(s.spec_materials().key_order()),
{
}

/// Remapping moves indices only, so the counts of a model survive it.
proof fn lemma_remap_keeps_counts(new: Seq<Mesh>, old: Seq<Mesh>, offset: u8)
    requires
        new.len() == old.len(),
        forall|i: int| 0 <= i < old.len() ==> (#[trigger] new[i]).is_shift_of(&old[i], offset),
    ensures
        meshes_vertex_count(new) == meshes_vertex_count(old),
        meshes_index_count(new) == meshes_index_count(old),
    decreases old.len(),
{
    if old.len() > 0 {
        lemma_remap_keeps_counts(new.drop_last(), old.drop_last(), offset);
        assert(new.last().is_shift_of(&old.last(), offset));
    }
}

/// The renderable world: a tree of nodes under a root, the scene-global
/// textures and materials in the order they were merged, and the size of
/// the output frame.
pub struct Scene {
    root: Node,
    all_materials: OrderedMaterialsMap,
    all_textures: OrderedTexturesMap,
    width: u32,
    height: u32,
}

impl Scene {
    pub closed spec fn spec_root(&self) -> Node {
        self.root
    }

    pub closed spec fn spec_textures(&self) -> OrderedTexturesMap {
        self.all_textures
    }

    pub closed spec fn spec_materials(&self) -> OrderedMaterialsMap {
        self.all_materials
    }

    pub closed spec fn spec_width(&self) -> u32 {
        self.width
    }

    pub closed spec fn spec_height(&self) -> u32 {
        self.height
    }

    /// Number of scene-global textures.
    pub open spec fn texture_count(&self) -> int {
        self.spec_textures().key_order().len() as int
    }

    /// Number of scene-global materials.
    pub open spec fn material_count(&self) -> int {
        self.spec_materials().key_order().len() as int
    }

    /// The texture in global slot `i`.
    pub open spec fn texture_at(&self, i: int) -> Texture {
        self.spec_textures().entries()[i as u8]
    }

    /// The material in global slot `i`.
    pub open spec fn material_at(&self, i: int) -> MeshMaterial {
        self.spec_materials().entries()[i as u8]
    }

    /// `self` is `old` after `model` was merged into it: the tree and the
    /// output size are unchanged; the model's textures were appended to the
    /// global textures and its remapped materials to the global materials,
    /// in order, each in the next free slot.
    pub open spec fn is_merge_of(&self, old: &Scene, model: Model) -> bool {
        let t = old.texture_count();
        let m = old.material_count();
        &&& self.spec_root() == old.spec_root()
        &&& self.spec_width() == old.spec_width()
        &&& self.spec_height() == old.spec_height()
        &&& self.texture_count() == t + model.textures@.len()
        &&& self.material_count() == m + model.materials@.len()
        &&& self.spec_textures().key_order() == old.spec_textures().key_order() + Seq::new(
            model.textures@.len(),
            |i: int| (t + i) as u8,
        )
        &&& self.spec_materials().key_order() == old.spec_materials().key_order() + Seq::new(
            model.materials@.len(),
            |j: int| (m + j) as u8,
        )
        &&& forall|i: int| 0 <= i < t ==> #[trigger] self.texture_at(i) == old.texture_at(i)
        &&& forall|i: int|
            0 <= i < model.textures@.len() ==> #[trigger] self.texture_at(t + i) == model.textures@[i]
        &&& forall|j: int| 0 <= j < m ==> #[trigger] self.material_at(j) == old.material_at(j)
        &&& forall|j: int|
            0 <= j < model.materials@.len() ==> (#[trigger] self.material_at(m + j)).is_shift_of(
                &model.materials@[j],
                t as u8,
            )
    }

    pub closed spec fn wf(&self) -> bool {
        &&& self.root.wf()
        &&& self.root.spec_id() == SCENE_ROOT_ID
        &&& self.root.spec_parent() is None
        &&& self.all_textures.wf()
        &&& self.all_materials.wf()
        &&& dense_keys(self.all_textures.key_order())
        &&& dense_keys(self.all_materials.key_order())
        &&& dimensions_ok(self.width, self.height)
    }

    /// An empty scene with an output frame of `width` by `height`; both
    /// must be even.
    pub fn new(width: u32, height: u32) -> (r: Result<Scene, SceneError>)
        ensures
            r is Ok <==> dimensions_ok(width, height),
            r is Err ==> r == Err::<Scene, SceneError>(SceneError::OddDimensions { width, height }),
            r matches Ok(s) ==> {
                &&& s.wf()
                &&& s.spec_width() == width
                &&& s.spec_height() == height
                &&& s.texture_count() == 0
                &&& s.material_count() == 0
                &&& s.spec_root().child_nodes().len() == 0
                &&& s.spec_root().stored_descendants() == 0
                &&& s.spec_root().stored_vertices_in_tree() == 0
                &&& s.spec_root().stored_indices_in_tree() == 0
            },
    {
        match validate_output_dimensions(width, height) {
            Err(e) => Err(e),
            Ok(()) => {
                let root = Node::new(SCENE_ROOT_ID, None, None);
                let s = Scene {
                    root,
                    all_materials: OrderedMaterialsMap::new(),
                    all_textures: OrderedTexturesMap::new(),
                    width,
                    height,
                };
                Ok(s)
            },
        }
    }

    /// An empty scene at the default output size.
    pub fn with_default_resolution() -> (r: Scene)
        ensures
            r.wf(),
            r.spec_width() == DEFAULT_WIDTH,
            r.spec_height() == DEFAULT_HEIGHT,
            r.texture_count() == 0,
            r.material_count() == 0,
            r.spec_root().child_nodes().len() == 0,
            r.spec_root().stored_descendants() == 0,
            r.spec_root().stored_vertices_in_tree() == 0,
            r.spec_root().stored_indices_in_tree() == 0,
    {
        let root = Node::new(SCENE_ROOT_ID, None, None);
        Scene {
            root,
            all_materials: OrderedMaterialsMap::new(),
            all_textures: OrderedTexturesMap::new(),
            width: DEFAULT_WIDTH,
            height: DEFAULT_HEIGHT,
        }
    }

    pub fn width_height(&self) -> (r: [u32; 2])
        ensures
            r@ == seq![self.spec_width(), self.spec_height()],
    {
        let r = [self.width, self.height];
        assert(r@ =~= seq![self.width, self.height]);
        r
    }

    pub fn num_of_nodes(&self) -> (r: u32)
        ensures
            r == self.spec_root().stored_descendants(),
    {
        self.root.get_num_of_descendants()
    }

    pub fn num_of_vertices(&self) -> (r: u64)
        ensures
            r == self.spec_root().stored_vertices_in_tree(),
    {
        self.root.num_of_vertices_in_tree()
    }

    pub fn num_of_indices(&self) -> (r: u64)
        ensures
            r == self.spec_root().stored_indices_in_tree(),
    {
        self.root.num_of_indices_in_tree()
    }

    pub fn num_of_textures(&self) -> (r: u8)
        requires
            self.wf(),
        ensures
            r == self.texture_count(),
    {
        self.all_textures.len()
    }

    pub fn num_of_materials(&self) -> (r: u8)
        requires
            self.wf(),
        ensures
            r == self.material_count(),
    {
        self.all_materials.len()
    }

    /// Registers `model` with the scene: its textures take the next free
    /// global texture slots; the material index of each of its meshes and
    /// vertices, and each texture reference of its materials, moves by the
    /// number of textures the scene held before; its materials then take
    /// the next free global material slots. Returns the remapped model.
    pub fn merge_model(&mut self, model: Model) -> (r: Model)
        requires
            old(self).wf(),
            can_merge(model, old(self).texture_count(), old(self).material_count()),
        ensures
            final(self).wf(),
            final(self).is_merge_of(old(self), model),
            is_remap_of(r, model, old(self).texture_count() as u8),
    {
        proof {
            lemma_key_order_is_domain(&self.all_textures);
            lemma_key_order_is_domain(&self.all_materials);
        }
        let prev_scene_textures_len = self.num_of_textures();
        let prev_scene_materials_len = self.num_of_materials();
        let ghost old_textures = self.all_textures;
        let ghost old_materials = self.all_materials;
        let Model { meshes, textures, materials } = model;

        let mut i: usize = 0;
        while i < textures.len()
            invariant
                textures@ == model.textures@,
                prev_scene_textures_len == old_textures.key_order().len(),
                prev_scene_textures_len + textures@.len() <= u8::MAX,
                i <= textures@.len(),
                self.all_textures.wf(),
                dense_keys(self.all_textures.key_order()),
                self.all_textures.key_order().len() == prev_scene_textures_len + i,
                forall|k: int|
                    0 <= k < prev_scene_textures_len ==> #[trigger] self.all_textures.entries()[k as u8]
                        == old_textures.entries()[k as u8],
                forall|k: int|
                    0 <= k < i ==> #[trigger] self.all_textures.entries()[(prev_scene_textures_len + k) as u8]
                        == textures@[k],
                self.root == old(self).root,
                self.all_materials == old(self).all_materials,
                self.width == old(self).width,
                self.height == old(self).height,
            decreases textures@.len() - i,
        {
            let key: u8 = prev_scene_textures_len + i as u8;
            proof {
                lemma_next_slot_free(&self.all_textures);
            }
            let ghost before = self.all_textures;
            self.all_textures.insert(key, textures[i]);
            proof {
                lemma_fill_next_slot(self.all_textures, before, textures@[i as int]);
            }
            i = i + 1;
        }

        let mut remaining = meshes;
        let mut new_meshes: Vec<Mesh> = Vec::new();
        let mut j: usize = 0;
        let n_meshes = remaining.len();
        while j < n_meshes
            invariant
                n_meshes == model.meshes@.len(),
                j <= n_meshes,
                remaining@ == model.meshes@.subrange(j as int, n_meshes as int),
                new_meshes@.len() == j,
                prev_scene_textures_len == old(self).texture_count(),
                forall|q: int| 0 <= q < n_meshes ==> (#[trigger] model.meshes@[q]).can_shift(prev_scene_textures_len),
                forall|q: int|
                    0 <= q < j ==> (#[trigger] new_meshes@[q]).is_shift_of(
                        &model.meshes@[q],
                        prev_scene_textures_len,
                    ),
            decreases n_meshes - j,
        {
            let mut mesh = remaining.remove(0);
            assert(mesh == model.meshes@[j as int]);
            mesh.update_material_index(prev_scene_textures_len);
            new_meshes.push(mesh);
            j = j + 1;
            assert(remaining@ =~= model.meshes@.subrange(j as int, n_meshes as int));
        }

        let mut remaining_materials = materials;
        let mut new_materials: Vec<MeshMaterial> = Vec::new();
        let mut k: usize = 0;
        let n_materials = remaining_materials.len();
        while k < n_materials
            invariant
                n_materials == model.materials@.len(),
                k <= n_materials,
                remaining_materials@ == model.materials@.subrange(k as int, n_materials as int),
                new_materials@.len() == k,
                prev_scene_textures_len == old(self).texture_count(),
                prev_scene_materials_len == old_materials.key_order().len(),
                prev_scene_materials_len + n_materials <= u8::MAX,
                forall|q: int|
                    0 <= q < n_materials ==> (#[trigger] model.materials@[q]).can_shift(
                        prev_scene_textures_len,
                    ),
                forall|q: int|
                    0 <= q < k ==> (#[trigger] new_materials@[q]).is_shift_of(
                        &model.materials@[q],
                        prev_scene_textures_len,
                    ),
                self.all_materials.wf(),
                dense_keys(self.all_materials.key_order()),
                self.all_materials.key_order().len() == prev_scene_materials_len + k,
                forall|q: int|
                    0 <= q < prev_scene_materials_len ==> #[trigger] self.all_materials.entries()[q as u8]
                        == old_materials.entries()[q as u8],
                forall|q: int|
                    0 <= q < k ==> (#[trigger] self.all_materials.entries()[(prev_scene_materials_len
                        + q) as u8]).is_shift_of(&model.materials@[q], prev_scene_textures_len),
                self.root == old(self).root,
                self.all_textures.wf(),
                dense_keys(self.all_textures.key_order()),
                self.all_textures.key_order().len() == prev_scene_textures_len + textures@.len(),
                forall|q: int|
                    0 <= q < prev_scene_textures_len ==> #[trigger] self.all_textures.entries()[q as u8]
                        == old_textures.entries()[q as u8],
                forall|q: int|
                    0 <= q < textures@.len() ==> #[trigger] self.all_textures.entries()[(prev_scene_textures_len + q) as u8]
                        == textures@[q],
                self.width == old(self).width,
                self.height == old(self).height,
            decreases n_materials - k,
        {
            let mut material = remaining_materials.remove(0);
            assert(material == model.materials@[k as int]);
            material.update_texture_indexs(prev_scene_textures_len);
            let key: u8 = prev_scene_materials_len + k as u8;
            proof {
                lemma_next_slot_free(&self.all_materials);
            }
            let ghost before = self.all_materials;
            let global_copy = material.copy();
            let ghost inserted = global_copy;
            self.all_materials.insert(key, global_copy);
            proof {
                lemma_fill_next_slot(self.all_materials, before, inserted);
            }
            new_materials.push(material);
            k = k + 1;
            assert(remaining_materials@ =~= model.materials@.subrange(k as int, n_materials as int));
        }
        proof {
            let t = prev_scene_textures_len as int;
            let m = prev_scene_materials_len as int;
            assert(self.all_textures.key_order() =~= old_textures.key_order() + Seq::new(
                textures@.len(),
                |i: int| (t + i) as u8,
            ));
            assert(self.all_materials.key_order() =~= old_materials.key_order() + Seq::new(
                n_materials as nat,
                |j: int| (m + j) as u8,
            ));
        }
        Model { meshes: new_meshes, textures, materials: new_materials }
    }

    /// Builds a node for `model` with the next free id (one more than the
    /// number of nodes below the root). A model is merged into the scene
    /// first, and the node carries the remapped model.
    pub fn create_node(&mut self, model: Option<Model>) -> (r: Node)
        requires
            old(self).wf(),
            old(self).spec_root().stored_descendants() < u32::MAX,
            model matches Some(m) ==> can_merge(m, old(self).texture_count(), old(self).material_count()),
        ensures
            final(self).wf(),
            r.wf(),
            r.spec_id() == old(self).spec_root().stored_descendants() + 1,
            r.spec_parent() is None,
            r.child_nodes().len() == 0,
            r.stored_descendants() == 0,
            r.stored_vertices() == r.own_vertex_count(),
            r.stored_indices() == r.own_index_count(),
            r.stored_vertices_in_tree() == r.stored_vertices(),
            r.stored_indices_in_tree() == r.stored_indices(),
            model is None ==> r.stored_vertices() == 0 && r.stored_indices() == 0,
            model is None ==> r.spec_model() is None && *final(self) == *old(self),
            model matches Some(m) ==> {
                &&& r.spec_model() matches Some(rm) && is_remap_of(rm, m, old(self).texture_count() as u8)
                &&& final(self).is_merge_of(old(self), m)
            },
    {
        let id = self.num_of_nodes() + 1;
        match model {
            None => Node::new(id, None, None),
            Some(m) => {
                let merged = self.merge_model(m);
                proof {
                    lemma_remap_keeps_counts(merged.meshes@, m.meshes@, old(self).texture_count() as u8);
                }
                Node::new(id, None, Some(merged))
            },
        }
    }

    /// Attaches `node` below the root.
    pub fn add_node(&mut self, node: Node)
        requires
            old(self).wf(),
            node.wf(),
            old(self).spec_root().stored_descendants() + 1 + node.stored_descendants() <= u32::MAX,
            old(self).spec_root().stored_vertices_in_tree() + node.stored_vertices_in_tree() <= u64::MAX,
            old(self).spec_root().stored_indices_in_tree() + node.stored_indices_in_tree() <= u64::MAX,
        ensures
            final(self).wf(),
            final(self).spec_root().child_nodes() == old(self).spec_root().child_nodes().push(node),
            final(self).spec_root().stored_descendants() == old(self).spec_root().stored_descendants()
                + 1 + node.stored_descendants(),
            final(self).spec_root().stored_vertices_in_tree()
                == old(self).spec_root().stored_vertices_in_tree() + node.stored_vertices_in_tree(),
            final(self).spec_root().stored_indices_in_tree()
                == old(self).spec_root().stored_indices_in_tree() + node.stored_indices_in_tree(),
            final(self).spec_textures() == old(self).spec_textures(),
            final(self).spec_materials() == old(self).spec_materials(),
            final(self).spec_width() == old(self).spec_width(),
            final(self).spec_height() == old(self).spec_height(),
    {
        self.root.add_node(node);
    }

    /// Puts `texture` in the next free global texture slot and returns the
    /// number of textures the scene then holds.
    pub fn add_texture(&mut self, texture: Texture) -> (r: u8)
        requires
            old(self).wf(),
            old(self).texture_count() < u8::MAX,
        ensures
            final(self).wf(),
            r == old(self).texture_count() + 1,
            final(self).texture_count() == r,
            final(self).texture_at(old(self).texture_count()) == texture,
            forall|i: int| 0 <= i < old(self).texture_count() ==> #[trigger] final(self).texture_at(i) == old(self).texture_at(i),
            final(self).spec_root() == old(self).spec_root(),
            final(self).spec_materials() == old(self).spec_materials(),
            final(self).spec_width() == old(self).spec_width(),
            final(self).spec_height() == old(self).spec_height(),
    {
        let index = self.all_textures.len();
        proof {
            lemma_next_slot_free(&self.all_textures);
        }
        let ghost before = self.all_textures;
        self.all_textures.insert(index, texture);
        proof {
            lemma_fill_next_slot(self.all_textures, before, texture);
        }
        index + 1
    }

    /// The error, if any, that stops this scene from being drawn this tick,
    /// in the order the checks are made.
    pub open spec fn draw_error(&self, camera_ready: bool, set_layout_count: usize) -> Option<FrameError> {
        if !camera_ready {
            Some(FrameError::CameraNotUpdated)
        } else if set_layout_count <= MAIN_SET {
            Some(FrameError::Pipeline(PipelineBuildError::MissingMainSet))
        } else if set_layout_count <= TEXTURE_SET {
            Some(FrameError::Pipeline(PipelineBuildError::MissingTextureSet))
        } else if self.texture_count() > MAX_DESCRIPTOR_COUNT {
            Some(
                FrameError::Pipeline(
                    PipelineBuildError::TooManyTextures { count: self.texture_count() as u32 },
                ),
            )
        } else if self.spec_root().stored_indices_in_tree() > u32::MAX {
            Some(FrameError::TooManyIndices { count: self.spec_root().stored_indices_in_tree() })
        } else {
            None
        }
    }

    /// Gathers what one indexed draw of the whole scene needs, once the
    /// camera data of this tick is in place (`camera_ready`) and the pipeline
    /// layout has `set_layout_count` descriptor sets.
    pub fn prepare_draw(&self, camera_ready: bool, set_layout_count: usize) -> (r: Result<
        DrawBatch,
        FrameError,
    >)
        requires
            self.wf(),
        ensures
            r is Err <==> self.draw_error(camera_ready, set_layout_count) is Some,
            r matches Err(e) ==> self.draw_error(camera_ready, set_layout_count) == Some(e),
            dense_keys(self.spec_materials().key_order()),
            dense_keys(self.spec_textures().key_order()),
            r matches Ok(b) ==> {
                &&& b.vertex_buffers@ == self.spec_root().tree_vertex_buffers()
                &&& b.index_buffers@ == self.spec_root().tree_index_buffers()
                &&& b.indices@ == self.spec_root().tree_indices()
                &&& b.index_count == self.spec_root().stored_indices_in_tree()
                &&& b.index_count == b.indices@.len()
                &&& b.materials@.len() == self.material_count()
                &&& forall|i: int|
                    0 <= i < b.materials@.len() ==> #[trigger] b.materials@[i]
                        == self.material_at(i).gpu_material()
                &&& b.textures@.len() == self.texture_count()
                &&& forall|i: int|
                    0 <= i < b.textures@.len() ==> #[trigger] b.textures@[i] == self.texture_at(i).handle
            },
    {
        if !camera_ready {
            return Err(FrameError::CameraNotUpdated);
        }
        if set_layout_count <= MAIN_SET {
            return Err(FrameError::Pipeline(PipelineBuildError::MissingMainSet));
        }
        if set_layout_count <= TEXTURE_SET {
            return Err(FrameError::Pipeline(PipelineBuildError::MissingTextureSet));
        }
        let texture_count = self.num_of_textures();
        if texture_count as u32 > MAX_DESCRIPTOR_COUNT {
            return Err(
                FrameError::Pipeline(PipelineBuildError::TooManyTextures { count: texture_count as u32 }),
            );
        }
        let index_total = self.num_of_indices();
        if index_total > u32::MAX as u64 {
            return Err(FrameError::TooManyIndices { count: index_total });
        }
        let entries = self.all_materials.iter();
        let mut materials: Vec<GpuMaterial> = Vec::new();
        let mut i: usize = 0;
        while i < entries.len()
            invariant
                self.wf(),
                entries@.len() == self.material_count(),
                forall|q: int|
                    0 <= q < entries@.len() ==> #[trigger] entries@[q] == (
                        self.spec_materials().key_order()[q],
                        &self.spec_materials().entries()[self.spec_materials().key_order()[q]],
                    ),
                i <= entries@.len(),
                materials@.len() == i,
                forall|q: int|
                    0 <= q < i ==> #[trigger] materials@[q] == self.material_at(q).gpu_material(),
            decreases entries@.len() - i,
        {
            let (_, material) = entries[i];
            assert(self.spec_materials().key_order()[i as int] == i);
            materials.push(material.to_gpu_material());
            i = i + 1;
        }
        let texture_entries = self.all_textures.iter();
        let mut textures: Vec<u64> = Vec::new();
        let mut j: usize = 0;
        while j < texture_entries.len()
            invariant
                self.wf(),
                texture_entries@.len() == self.texture_count(),
                forall|q: int|
                    0 <= q < texture_entries@.len() ==> #[trigger] texture_entries@[q] == (
                        self.spec_textures().key_order()[q],
                        &self.spec_textures().entries()[self.spec_textures().key_order()[q]],
                    ),
                j <= texture_entries@.len(),
                textures@.len() == j,
                forall|q: int| 0 <= q < j ==> #[trigger] textures@[q] == self.texture_at(q).handle,
            decreases texture_entries@.len() - j,
        {
            let (_, texture) = texture_entries[j];
            assert(self.spec_textures().key_order()[j as int] == j);
            textures.push(texture.handle);
            j = j + 1;
        }
        let mut vertex_buffers: Vec<u64> = Vec::new();
        let mut index_buffers: Vec<u64> = Vec::new();
        let mut indices: Vec<u32> = Vec::new();
        self.root.get_index_and_vertex_buffers(&mut vertex_buffers, &mut index_buffers, &mut indices);
        proof {
            lemma_aggregate_consistency(self.root);
            assert(vertex_buffers@ =~= self.root.tree_vertex_buffers());
            assert(index_buffers@ =~= self.root.tree_index_buffers());
            assert(indices@ =~= self.root.tree_indices());
        }
        Ok(
            DrawBatch {
                vertex_buffers,
                index_buffers,
                indices,
                index_count: index_total as u32,
                materials,
                textures,
            },
        )
    }

    /// Walks the whole scene depth first and appends, for every mesh, its
    /// vertex buffer handle, its index buffer handle and its index list.
    pub fn get_index_and_vertex_buffers(
        &self,
        vertex_buffer_arr: &mut Vec<u64>,
        index_buffer_arr: &mut Vec<u64>,
        indicies_arr: &mut Vec<u32>,
    )
        ensures
            final(vertex_buffer_arr)@ == old(vertex_buffer_arr)@ + self.spec_root().tree_vertex_buffers(),
            final(index_buffer_arr)@ == old(index_buffer_arr)@ + self.spec_root().tree_index_buffers(),
            final(indicies_arr)@ == old(indicies_arr)@ + self.spec_root().tree_indices(),
    {
        self.root.get_index_and_vertex_buffers(vertex_buffer_arr, index_buffer_arr, indicies_arr);
    }

    pub fn root(&self) -> (r: &Node)
        ensures
            *r == self.spec_root(),
    {
        &self.root
    }

    pub fn all_textures(&self) -> (r: &OrderedTexturesMap)
        requires
            self.wf(),
        ensures
            *r == self.spec_textures(),
            r.wf(),
            dense_keys(r.key_order()),
    {
        &self.all_textures
    }

    pub fn all_materials(&self) -> (r: &OrderedMaterialsMap)
        requires
            self.wf(),
        ensures
            *r == self.spec_materials(),
            r.wf(),
            dense_keys(r.key_order()),
    {
        &self.all_materials
    }
}

} // verus!
