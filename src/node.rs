use vstd::prelude::*;

use crate::model::{
    lemma_meshes_indices_len, meshes_index_buffers, meshes_index_count, meshes_indices,
    meshes_vertex_buffers, meshes_vertex_count, Mesh, Model,
};

verus! {

/// One element of the scene graph: an optional model, the nodes below it,
/// and the vertex, index and node counts of itself and of its subtree.
pub struct Node {
    id: u32,
    parent: Option<u32>,
    num_of_descendants: u32,
    num_of_vertices: u64,
    num_of_vertices_in_tree: u64,
    num_of_indices: u64,
    num_of_indices_in_tree: u64,
    model: Option<Model>,
    children: Vec<Node>,
}

/// The meshes of an optional model.
pub open spec fn model_meshes(model: Option<Model>) -> Seq<Mesh> {
    match model {
        Some(m) => m.meshes@,
        None => Seq::empty(),
    }
}

/// Vertices of all the trees of a list of nodes.
pub open spec fn forest_vertex_sum(nodes: Seq<Node>) -> int
    decreases nodes,
{
    if nodes.len() == 0 {
        0
    } else {
        forest_vertex_sum(nodes.subrange(0, nodes.len() - 1)) + nodes[nodes.len() - 1].tree_vertex_sum()
    }
}

/// Indices of all the trees of a list of nodes.
pub open spec fn forest_index_sum(nodes: Seq<Node>) -> int
    decreases nodes,
{
    if nodes.len() == 0 {
        0
    } else {
        forest_index_sum(nodes.subrange(0, nodes.len() - 1)) + nodes[nodes.len() - 1].tree_index_sum()
    }
}

/// Number of nodes in all the trees of a list of nodes.
pub open spec fn forest_node_count(nodes: Seq<Node>) -> int
    decreases nodes,
{
    if nodes.len() == 0 {
        0
    } else {
        forest_node_count(nodes.subrange(0, nodes.len() - 1)) + 1
            + forest_node_count(nodes[nodes.len() - 1].child_nodes())
    }
}

/// The flattened index lists of all the trees of a list of nodes, tree
/// after tree, each depth first.
pub open spec fn forest_indices(nodes: Seq<Node>) -> Seq<u32>
    decreases nodes,
{
    if nodes.len() == 0 {
        Seq::empty()
    } else {
        forest_indices(nodes.subrange(0, nodes.len() - 1)) + nodes[nodes.len() - 1].tree_indices()
    }
}

/// The vertex buffer handles of all the trees of a list of nodes.
pub open spec fn forest_vertex_buffers(nodes: Seq<Node>) -> Seq<u64>
    decreases nodes,
{
    if nodes.len() == 0 {
        Seq::empty()
    } else {
        forest_vertex_buffers(nodes.subrange(0, nodes.len() - 1))
            + nodes[nodes.len() - 1].tree_vertex_buffers()
    }
}

/// The index buffer handles of all the trees of a list of nodes.
pub open spec fn forest_index_buffers(nodes: Seq<Node>) -> Seq<u64>
    decreases nodes,
{
    if nodes.len() == 0 {
        Seq::empty()
    } else {
        forest_index_buffers(nodes.subrange(0, nodes.len() - 1))
            + nodes[nodes.len() - 1].tree_index_buffers()
    }
}

/// The stored subtree vertex counts of a list of nodes, summed.
pub open spec fn forest_stored_vertices(nodes: Seq<Node>) -> int
    decreases nodes.len(),
{
    if nodes.len() == 0 {
        0
    } else {
        forest_stored_vertices(nodes.drop_last()) + nodes.last().stored_vertices_in_tree()
    }
}

/// The stored subtree index counts of a list of nodes, summed.
pub open spec fn forest_stored_indices(nodes: Seq<Node>) -> int
    decreases nodes.len(),
{
    if nodes.len() == 0 {
        0
    } else {
        forest_stored_indices(nodes.drop_last()) + nodes.last().stored_indices_in_tree()
    }
}

/// Each node of a list with its stored descendants, counted.
pub open spec fn forest_stored_nodes(nodes: Seq<Node>) -> int
    decreases nodes.len(),
{
    if nodes.len() == 0 {
        0
    } else {
        forest_stored_nodes(nodes.drop_last()) + 1 + nodes.last().stored_descendants()
    }
}

/// Every tree of a list of nodes is well formed.
pub open spec fn forest_wf(nodes: Seq<Node>) -> bool
    decreases nodes,
{
    if nodes.len() == 0 {
        true
    } else {
        forest_wf(nodes.subrange(0, nodes.len() - 1)) && nodes[nodes.len() - 1].wf()
    }
}

impl Node {
    pub closed spec fn spec_id(&self) -> u32 {
        self.id
    }

    pub closed spec fn spec_parent(&self) -> Option<u32> {
        self.parent
    }

    pub closed spec fn spec_model(&self) -> Option<Model> {
        self.model
    }

    pub closed spec fn child_nodes(&self) -> Seq<Node> {
        self.children@
    }

    pub closed spec fn stored_descendants(&self) -> u32 {
        self.num_of_descendants
    }

    pub closed spec fn stored_vertices(&self) -> u64 {
        self.num_of_vertices
    }

    pub closed spec fn stored_indices(&self) -> u64 {
        self.num_of_indices
    }

    pub closed spec fn stored_vertices_in_tree(&self) -> u64 {
        self.num_of_vertices_in_tree
    }

    pub closed spec fn stored_indices_in_tree(&self) -> u64 {
        self.num_of_indices_in_tree
    }

    /// Vertices of this node's own model.
    pub open spec fn own_vertex_count(&self) -> int {
        meshes_vertex_count(model_meshes(self.spec_model()))
    }

    /// Indices of this node's own model.
    pub open spec fn own_index_count(&self) -> int {
        meshes_index_count(model_meshes(self.spec_model()))
    }

    /// Vertices of this node's own model and of every node below it,
    /// summed by walking the tree.
    pub open spec fn tree_vertex_sum(&self) -> int
        decreases self,
    {
        self.own_vertex_count() + forest_vertex_sum(self.child_nodes())
    }

    /// Indices of this node's own model and of every node below it, summed
    /// by walking the tree.
    pub open spec fn tree_index_sum(&self) -> int
        decreases self,
    {
        self.own_index_count() + forest_index_sum(self.child_nodes())
    }

    /// Number of nodes below this one, counted by walking the tree.
    pub open spec fn tree_descendant_count(&self) -> int {
        forest_node_count(self.child_nodes())
    }

    /// The index lists of every mesh in the tree, this node's own meshes
    /// first, then each child's subtree in order.
    pub open spec fn tree_indices(&self) -> Seq<u32>
        decreases self,
    {
        meshes_indices(model_meshes(self.spec_model())) + forest_indices(self.child_nodes())
    }

    /// The vertex buffer handles of every mesh in the tree, in the same order.
    pub open spec fn tree_vertex_buffers(&self) -> Seq<u64>
        decreases self,
    {
        meshes_vertex_buffers(model_meshes(self.spec_model())) + forest_vertex_buffers(self.child_nodes())
    }

    /// The index buffer handles of every mesh in the tree, in the same order.
    pub open spec fn tree_index_buffers(&self) -> Seq<u64>
        decreases self,
    {
        meshes_index_buffers(model_meshes(self.spec_model())) + forest_index_buffers(self.child_nodes())
    }

    /// The stored counts agree with the tree, here and at every node below.
    pub open spec fn wf(&self) -> bool
        decreases self,
    {
        &&& self.stored_vertices() == self.own_vertex_count()
        &&& self.stored_indices() == self.own_index_count()
        &&& self.stored_vertices_in_tree() == self.tree_vertex_sum()
        &&& self.stored_indices_in_tree() == self.tree_index_sum()
        &&& self.stored_descendants() == forest_node_count(self.child_nodes())
        &&& forest_wf(self.child_nodes())
    }
}


proof fn lemma_prefix_counts_le(meshes: Seq<Mesh>, k: int)
    requires
        0 <= k <= meshes.len(),
    ensures
        meshes_vertex_count(meshes.subrange(0, k)) <= meshes_vertex_count(meshes),
        meshes_index_count(meshes.subrange(0, k)) <= meshes_index_count(meshes),
    decreases meshes.len() - k,
{
    if k < meshes.len() {
        lemma_prefix_counts_le(meshes, k + 1);
        let next = meshes.subrange(0, k + 1);
        assert(next.drop_last() =~= meshes.subrange(0, k));
    } else {
        assert(meshes.subrange(0, k) =~= meshes);
    }
}

/// Sums the vertex and index counts of a list of meshes.
fn mesh_counts(meshes: &Vec<Mesh>) -> (r: (u64, u64))
    requires
        meshes_vertex_count(meshes@) <= u64::MAX,
        meshes_index_count(meshes@) <= u64::MAX,
    ensures
        r.0 == meshes_vertex_count(meshes@),
        r.1 == meshes_index_count(meshes@),
{
    let mut vertices: u64 = 0;
    let mut indices: u64 = 0;
    let mut i: usize = 0;
    while i < meshes.len()
        invariant
            i <= meshes@.len(),
            meshes_vertex_count(meshes@) <= u64::MAX,
            meshes_index_count(meshes@) <= u64::MAX,
            vertices == meshes_vertex_count(meshes@.subrange(0, i as int)),
            indices == meshes_index_count(meshes@.subrange(0, i as int)),
        decreases meshes@.len() - i,
    {
        proof {
            lemma_prefix_counts_le(meshes@, i + 1);
            assert(meshes@.subrange(0, i + 1).drop_last() =~= meshes@.subrange(0, i as int));
        }
        vertices = vertices + meshes[i].num_of_vertices();
        indices = indices + meshes[i].num_of_indices();
        i = i + 1;
    }
    assert(meshes@.subrange(0, meshes@.len() as int) =~= meshes@);
    (vertices, indices)
}

/// Appends every entry of `src` to `dst`.
fn append_all<T: Copy>(dst: &mut Vec<T>, src: &Vec<T>)
    ensures
        final(dst)@ == old(dst)@ + src@,
{
    let mut i: usize = 0;
    while i < src.len()
        invariant
            i <= src@.len(),
            dst@ == old(dst)@ + src@.subrange(0, i as int),
        decreases src@.len() - i,
    {
        dst.push(src[i]);
        i = i + 1;
        assert(dst@ =~= old(dst)@ + src@.subrange(0, i as int));
    }
    assert(src@.subrange(0, src@.len() as int) =~= src@);
}

proof fn lemma_forest_push(nodes: Seq<Node>, child: Node)
    ensures
        forest_vertex_sum(nodes.push(child)) == forest_vertex_sum(nodes) + child.tree_vertex_sum(),
        forest_index_sum(nodes.push(child)) == forest_index_sum(nodes) + child.tree_index_sum(),
        forest_node_count(nodes.push(child)) == forest_node_count(nodes) + 1 + forest_node_count(
            child.child_nodes(),
        ),
        forest_wf(nodes.push(child)) == (forest_wf(nodes) && child.wf()),
{
    let s = nodes.push(child);
    assert(s.subrange(0, s.len() - 1) =~= nodes);
}

proof fn lemma_forest_indices_len(nodes: Seq<Node>)
    ensures
        forest_indices(nodes).len() == forest_index_sum(nodes),
    decreases nodes,
{
    if nodes.len() > 0 {
        lemma_forest_indices_len(nodes.subrange(0, nodes.len() - 1));
        lemma_tree_indices_len(nodes[nodes.len() - 1]);
    }
}

proof fn lemma_tree_indices_len(n: Node)
    ensures
        n.tree_indices().len() == n.tree_index_sum(),
    decreases n,
{
    lemma_meshes_indices_len(model_meshes(n.model));
    lemma_forest_indices_len(n.children@);
}

proof fn lemma_forest_wf_each(nodes: Seq<Node>, i: int)
    requires
        forest_wf(nodes),
        0 <= i < nodes.len(),
    ensures
        nodes[i].wf(),
    decreases nodes.len(),
{
    if i < nodes.len() - 1 {
        let prefix = nodes.subrange(0, nodes.len() - 1);
        lemma_forest_wf_each(prefix, i);
        assert(prefix[i] == nodes[i]);
    }
}

proof fn lemma_forest_stored_sums(nodes: Seq<Node>)
    requires
        forest_wf(nodes),
    ensures
        forest_vertex_sum(nodes) == forest_stored_vertices(nodes),
        forest_index_sum(nodes) == forest_stored_indices(nodes),
        forest_node_count(nodes) == forest_stored_nodes(nodes),
    decreases nodes.len(),
{
    if nodes.len() > 0 {
        let prefix = nodes.subrange(0, nodes.len() - 1);
        assert(prefix =~= nodes.drop_last());
        lemma_forest_stored_sums(prefix);
        let last = nodes[nodes.len() - 1];
        assert(last.wf());
        assert(last.stored_vertices_in_tree() == last.tree_vertex_sum());
        assert(last.stored_indices_in_tree() == last.tree_index_sum());
    }
}

/// In a well-formed tree every node's stored subtree counts are its own
/// vertex and index counts plus those of every node below it, summed by
/// walking the tree; equally, its own counts plus its children's stored
/// subtree counts; its stored descendant count is the number of nodes
/// below it, which is each child counted with its own descendants; each
/// of its children is well formed in turn; and the merged index
/// list that a traversal collects is exactly as long as the stored subtree
/// index count.
pub proof fn lemma_aggregate_consistency(n: Node)
    requires
        n.wf(),
    ensures
        n.stored_vertices() == n.own_vertex_count(),
        n.stored_indices() == n.own_index_count(),
        n.stored_vertices_in_tree() == n.tree_vertex_sum(),
        n.stored_indices_in_tree() == n.tree_index_sum(),
        n.stored_descendants() == n.tree_descendant_count(),
        n.tree_vertex_sum() == n.own_vertex_count() + forest_vertex_sum(n.child_nodes()),
        n.tree_index_sum() == n.own_index_count() + forest_index_sum(n.child_nodes()),
        n.tree_indices().len() == n.stored_indices_in_tree(),
        forall|i: int| 0 <= i < n.child_nodes().len() ==> (#[trigger] n.child_nodes()[i]).wf(),
        n.stored_vertices_in_tree() == n.stored_vertices() + forest_stored_vertices(n.child_nodes()),
        n.stored_indices_in_tree() == n.stored_indices() + forest_stored_indices(n.child_nodes()),
        n.stored_descendants() == forest_stored_nodes(n.child_nodes()),
{
    lemma_tree_indices_len(n);
    lemma_forest_stored_sums(n.child_nodes());
    assert forall|i: int| 0 <= i < n.child_nodes().len() implies (#[trigger] n.child_nodes()[i]).wf() by {
        lemma_forest_wf_each(n.children@, i);
    }
}

impl Node {
    /// A node with no children that carries `model`; its own and subtree
    /// counts are those of the model's meshes.
    pub fn new(id: u32, parent: Option<u32>, model: Option<Model>) -> (r: Node)
        requires
            meshes_vertex_count(model_meshes(model)) <= u64::MAX,
            meshes_index_count(model_meshes(model)) <= u64::MAX,
        ensures
            r.wf(),
            r.spec_id() == id,
            r.spec_parent() == parent,
            r.spec_model() == model,
            r.child_nodes() == Seq::<Node>::empty(),
            r.stored_descendants() == 0,
            r.stored_vertices() == meshes_vertex_count(model_meshes(model)),
            r.stored_indices() == meshes_index_count(model_meshes(model)),
            r.stored_vertices_in_tree() == r.stored_vertices(),
            r.stored_indices_in_tree() == r.stored_indices(),
    {
        let (num_of_vertices, num_of_indices) = match &model {
            Some(m) => mesh_counts(&m.meshes),
            None => (0, 0),
        };
        let r = Node {
            id,
            parent,
            num_of_descendants: 0,
            num_of_vertices,
            num_of_vertices_in_tree: num_of_vertices,
            num_of_indices,
            num_of_indices_in_tree: num_of_indices,
            model,
            children: Vec::new(),
        };
        proof {
            assert(forest_vertex_sum(r.children@) == 0);
            assert(forest_index_sum(r.children@) == 0);
            assert(forest_node_count(r.children@) == 0);
            assert(forest_wf(r.children@));
        }
        r
    }

    /// Attaches `child` as the last child of this node, adding its node,
    /// vertex and index counts to this node's subtree counts.
    pub fn add_node(&mut self, child: Node)
        requires
            old(self).wf(),
            child.wf(),
            old(self).stored_descendants() + 1 + child.stored_descendants() <= u32::MAX,
            old(self).stored_vertices_in_tree() + child.stored_vertices_in_tree() <= u64::MAX,
            old(self).stored_indices_in_tree() + child.stored_indices_in_tree() <= u64::MAX,
        ensures
            final(self).wf(),
            final(self).spec_id() == old(self).spec_id(),
            final(self).spec_parent() == old(self).spec_parent(),
            final(self).spec_model() == old(self).spec_model(),
            final(self).child_nodes() == old(self).child_nodes().push(child),
            final(self).stored_vertices() == old(self).stored_vertices(),
            final(self).stored_indices() == old(self).stored_indices(),
            final(self).stored_descendants() == old(self).stored_descendants() + 1
                + child.stored_descendants(),
            final(self).stored_vertices_in_tree() == old(self).stored_vertices_in_tree()
                + child.stored_vertices_in_tree(),
            final(self).stored_indices_in_tree() == old(self).stored_indices_in_tree()
                + child.stored_indices_in_tree(),
    {
        proof {
            lemma_forest_push(self.children@, child);
        }
        self.num_of_descendants = self.num_of_descendants + 1 + child.num_of_descendants;
        self.num_of_vertices_in_tree = self.num_of_vertices_in_tree + child.num_of_vertices_in_tree;
        self.num_of_indices_in_tree = self.num_of_indices_in_tree + child.num_of_indices_in_tree;
        self.children.push(child);
    }

    /// Walks the tree depth first and appends, for every mesh, its vertex
    /// buffer handle, its index buffer handle and its index list.
    pub fn get_index_and_vertex_buffers(
        &self,
        vertex_buffer_arr: &mut Vec<u64>,
        index_buffer_arr: &mut Vec<u64>,
        indicies_arr: &mut Vec<u32>,
    )
        ensures
            final(vertex_buffer_arr)@ == old(vertex_buffer_arr)@ + self.tree_vertex_buffers(),
            final(index_buffer_arr)@ == old(index_buffer_arr)@ + self.tree_index_buffers(),
            final(indicies_arr)@ == old(indicies_arr)@ + self.tree_indices(),
        decreases self,
    {
        let ghost own = model_meshes(self.model);
        match &self.model {
            Some(mode) => {
                let mut i: usize = 0;
                while i < mode.meshes.len()
                    invariant
                        own == mode.meshes@,
                        i <= own.len(),
                        vertex_buffer_arr@ == old(vertex_buffer_arr)@ + meshes_vertex_buffers(
                            own.subrange(0, i as int),
                        ),
                        index_buffer_arr@ == old(index_buffer_arr)@ + meshes_index_buffers(
                            own.subrange(0, i as int),
                        ),
                        indicies_arr@ == old(indicies_arr)@ + meshes_indices(
                            own.subrange(0, i as int),
                        ),
                    decreases own.len() - i,
                {
                    let mesh = &mode.meshes[i];
                    vertex_buffer_arr.push(mesh.vertex_buffer);
                    index_buffer_arr.push(mesh.index_buffer);
                    append_all(indicies_arr, &mesh.indices);
                    proof {
                        let next = own.subrange(0, i + 1);
                        assert(next.drop_last() =~= own.subrange(0, i as int));
                        assert(meshes_vertex_buffers(next) =~= meshes_vertex_buffers(
                            own.subrange(0, i as int),
                        ).push(mesh.vertex_buffer));
                        assert(meshes_index_buffers(next) =~= meshes_index_buffers(
                            own.subrange(0, i as int),
                        ).push(mesh.index_buffer));
                    }
                    i = i + 1;
                    assert(vertex_buffer_arr@ =~= old(vertex_buffer_arr)@ + meshes_vertex_buffers(
                        own.subrange(0, i as int),
                    ));
                    assert(index_buffer_arr@ =~= old(index_buffer_arr)@ + meshes_index_buffers(
                        own.subrange(0, i as int),
                    ));
                    assert(indicies_arr@ =~= old(indicies_arr)@ + meshes_indices(
                        own.subrange(0, i as int),
                    ));
                }
                assert(own.subrange(0, own.len() as int) =~= own);
            },
            None => {
                assert(vertex_buffer_arr@ =~= old(vertex_buffer_arr)@ + meshes_vertex_buffers(own));
                assert(index_buffer_arr@ =~= old(index_buffer_arr)@ + meshes_index_buffers(own));
                assert(indicies_arr@ =~= old(indicies_arr)@ + meshes_indices(own));
            },
        }
        let ghost vb0 = vertex_buffer_arr@;
        let ghost ib0 = index_buffer_arr@;
        let ghost ix0 = indicies_arr@;
        let mut j: usize = 0;
        while j < self.children.len()
            invariant
                j <= self.children@.len(),
                vertex_buffer_arr@ == vb0 + forest_vertex_buffers(self.children@.subrange(0, j as int)),
                index_buffer_arr@ == ib0 + forest_index_buffers(self.children@.subrange(0, j as int)),
                indicies_arr@ == ix0 + forest_indices(self.children@.subrange(0, j as int)),
            decreases self.children@.len() - j,
        {
            let ghost sub = self.children@.subrange(0, j + 1);
            proof {
                assert(sub.subrange(0, sub.len() - 1) =~= self.children@.subrange(0, j as int));
            }
            self.children[j].get_index_and_vertex_buffers(
                vertex_buffer_arr,
                index_buffer_arr,
                indicies_arr,
            );
            j = j + 1;
            assert(vertex_buffer_arr@ =~= vb0 + forest_vertex_buffers(self.children@.subrange(0, j as int)));
            assert(index_buffer_arr@ =~= ib0 + forest_index_buffers(self.children@.subrange(0, j as int)));
            assert(indicies_arr@ =~= ix0 + forest_indices(self.children@.subrange(0, j as int)));
        }
        assert(self.children@.subrange(0, self.children@.len() as int) =~= self.children@);
        assert(vertex_buffer_arr@ =~= old(vertex_buffer_arr)@ + self.tree_vertex_buffers());
        assert(index_buffer_arr@ =~= old(index_buffer_arr)@ + self.tree_index_buffers());
        assert(indicies_arr@ =~= old(indicies_arr)@ + self.tree_indices());
    }

    pub fn id(&self) -> (r: u32)
        ensures
            r == self.spec_id(),
    {
        self.id
    }

    pub fn parent(&self) -> (r: Option<u32>)
        ensures
            r == self.spec_parent(),
    {
        self.parent
    }

    pub fn model(&self) -> (r: &Option<Model>)
        ensures
            *r == self.spec_model(),
    {
        &self.model
    }

    pub fn children(&self) -> (r: &Vec<Node>)
        ensures
            r@ == self.child_nodes(),
    {
        &self.children
    }

    pub fn get_num_of_descendants(&self) -> (r: u32)
        ensures
            r == self.stored_descendants(),
    {
        self.num_of_descendants
    }

    pub fn num_of_indices_in_tree(&self) -> (r: u64)
        ensures
            r == self.stored_indices_in_tree(),
    {
        self.num_of_indices_in_tree
    }

    pub fn num_of_vertices_in_tree(&self) -> (r: u64)
        ensures
            r == self.stored_vertices_in_tree(),
    {
        self.num_of_vertices_in_tree
    }

    pub fn num_of_vertices(&self) -> (r: u64)
        ensures
            r == self.stored_vertices(),
    {
        self.num_of_vertices
    }

    pub fn num_of_indices(&self) -> (r: u64)
        ensures
            r == self.stored_indices(),
    {
        self.num_of_indices
    }
}

} // verus!
