//! The tree of nodes and the searches in it.

use vstd::prelude::*;
use vstd::slice::slice_to_vec;
use crate::device::{
    BufferContents, BufferContentsView, BufferInitDescriptor, BufferInitDescriptorView, Device,
    DeviceCommandView, DeviceView,
};
use crate::error::SceneError;
use crate::gpu::{BindGroup, BindGroupLayout, Buffer, BufferUsages};
use crate::light::{Light, LightView, ShadowMap};
use crate::math::Mat4;
use crate::model::{transform_vertices, transformed_views, vertex_views, Vertex, VertexView};
use crate::traversal::{
    first_named, lemma_first_named_add, lemma_search_finds, light_items, node_at, parent_error,
    preorder, preorder_children, render_items, replace_at, search, search_children, search_in,
    valid_path, visits, with_child, Visit,
};

verus! {

/// What every node has: a name and a transform relative to its parent.
#[derive(Debug)]
pub struct NodeData {
    pub name: String,
    pub matrix: Mat4,
}

/// The name of a node as a sequence of characters, and the numbers of its
/// transform.
pub struct NodeDataView {
    pub name: Seq<char>,
    pub matrix: Seq<u32>,
}

impl View for NodeData {
    type V = NodeDataView;

    open spec fn view(&self) -> NodeDataView {
        NodeDataView { name: self.name@, matrix: self.matrix@ }
    }
}

/// A node that holds other nodes, in the order in which they were added.
#[derive(Debug)]
pub struct GroupNode {
    pub node: NodeData,
    pub children: Vec<Node>,
}

/// A group by its name, its transform and the views of its children.
pub struct GroupNodeView {
    pub node: NodeDataView,
    pub children: Seq<NodeView>,
}

/// The transform of a node as the shaders read it.
#[derive(Clone, Copy, Debug)]
pub struct ModelUniform {
    pub view_proj: Mat4,
}

/// A mesh to draw. `vertices` are the corners as they were given;
/// `vertex_buffer` holds them moved by the node's own transform.
#[derive(Debug)]
pub struct RenderNode {
    pub node: NodeData,
    pub vertex_buffer: Buffer,
    pub index_buffer: Buffer,
    pub num_elements: u32,
    pub material_bind_group: Option<BindGroup>,
    pub vertices: Vec<Vertex>,
}

/// A render node by its name, its transform, its handles and the numbers
/// of its corners.
pub struct RenderNodeView {
    pub node: NodeDataView,
    pub vertex_buffer: Buffer,
    pub index_buffer: Buffer,
    pub num_elements: u32,
    pub material_bind_group: Option<BindGroup>,
    pub vertices: Seq<VertexView>,
}

impl View for RenderNode {
    type V = RenderNodeView;

    open spec fn view(&self) -> RenderNodeView {
        RenderNodeView {
            node: self.node@,
            vertex_buffer: self.vertex_buffer,
            index_buffer: self.index_buffer,
            num_elements: self.num_elements,
            material_bind_group: self.material_bind_group,
            vertices: vertex_views(self.vertices@),
        }
    }
}

/// A light in the tree.
#[derive(Debug)]
pub struct LightNode {
    pub node: NodeData,
    pub light: Light,
}

/// A light node by its name, its transform and the numbers of its light.
pub struct LightNodeView {
    pub node: NodeDataView,
    pub light: LightView,
}

impl View for LightNode {
    type V = LightNodeView;

    open spec fn view(&self) -> LightNodeView {
        LightNodeView { node: self.node@, light: self.light@ }
    }
}

/// A node of the tree: a group, a mesh to draw, or a light.
#[derive(Debug)]
pub enum Node {
    GroupNode(GroupNode),
    RenderNode(RenderNode),
    LightNode(LightNode),
}

/// A node of the tree by its view.
pub enum NodeView {
    GroupNode(GroupNodeView),
    RenderNode(RenderNodeView),
    LightNode(LightNodeView),
}

/// The views of a list of nodes.
pub open spec fn node_views(nodes: Seq<Node>) -> Seq<NodeView>
    decreases nodes,
{
    Seq::new(
        nodes.len(),
        |i: int|
            if 0 <= i < nodes.len() {
                nodes[i].view()
            } else {
                arbitrary()
            },
    )
}

impl View for Node {
    type V = NodeView;

    open spec fn view(&self) -> NodeView
        decreases self,
    {
        match self {
            Node::GroupNode(g) => NodeView::GroupNode(
                GroupNodeView { node: g.node@, children: node_views(g.children@) },
            ),
            Node::RenderNode(r) => NodeView::RenderNode(r@),
            Node::LightNode(l) => NodeView::LightNode(l@),
        }
    }
}

impl View for GroupNode {
    type V = GroupNodeView;

    open spec fn view(&self) -> GroupNodeView {
        GroupNodeView { node: self.node@, children: node_views(self.children@) }
    }
}

impl NodeView {
    /// The name and transform of the node, whatever its kind.
    pub open spec fn data(self) -> NodeDataView {
        match self {
            NodeView::GroupNode(g) => g.node,
            NodeView::RenderNode(r) => r.node,
            NodeView::LightNode(l) => l.node,
        }
    }

    /// The children of a group; a leaf has none.
    pub open spec fn children(self) -> Seq<NodeView> {
        match self {
            NodeView::GroupNode(g) => g.children,
            _ => Seq::empty(),
        }
    }
}

impl NodeData {
    /// A node of the given name with the identity as its transform.
    pub fn new(name: String) -> (data: NodeData)
        ensures
            data@ == (NodeDataView { name: name@, matrix: Mat4::identity_numbers() }),
    {
        NodeData { name, matrix: Mat4::identity() }
    }

    /// Gives the node the transform `matrix`.
    pub fn set_matrix(&mut self, matrix: Mat4)
        ensures
            final(self)@ == (NodeDataView { name: old(self)@.name, matrix: matrix@ }),
            final(self).matrix == matrix,
    {
        self.matrix = matrix;
    }
}

impl GroupNode {
    /// A group of the given name, without children, with the identity as its
    /// transform.
    pub fn new(name: String) -> (group: GroupNode)
        ensures
            group@ == (GroupNodeView {
                node: NodeDataView { name: name@, matrix: Mat4::identity_numbers() },
                children: Seq::empty(),
            }),
    {
        let group = GroupNode { node: NodeData::new(name), children: Vec::new() };
        assert(group@.children =~= Seq::empty());
        group
    }

    /// Gives the group the transform `matrix`, under which all its children
    /// stand.
    pub fn set_matrix(&mut self, matrix: Mat4)
        ensures
            final(self)@ == (GroupNodeView {
                node: NodeDataView { name: old(self)@.node.name, matrix: matrix@ },
                children: old(self)@.children,
            }),
    {
        self.node.set_matrix(matrix);
    }

    /// Adds `child` behind the children that the group has.
    pub fn add_child(&mut self, child: Node)
        ensures
            final(self)@ == (GroupNodeView {
                node: old(self)@.node,
                children: old(self)@.children.push(child@),
            }),
    {
        self.children.push(child);
        assert(final(self)@.children =~= old(self)@.children.push(child@));
    }
}

/// The vertex buffer of the render node `name`, holding `vertices`.
pub open spec fn vertex_buffer_descriptor(name: Seq<char>, vertices: Seq<VertexView>) -> BufferInitDescriptorView {
    BufferInitDescriptorView {
        label: name + " Vertex Buffer"@,
        contents: BufferContentsView::Vertices(vertices),
        usage: BufferUsages {
            vertex: true,
            index: false,
            uniform: false,
            storage: false,
            copy_src: false,
            copy_dst: false,
        },
    }
}

/// The index buffer of the render node `name`, holding `indices`.
pub open spec fn index_buffer_descriptor(name: Seq<char>, indices: Seq<u32>) -> BufferInitDescriptorView {
    BufferInitDescriptorView {
        label: name + " Index Buffer"@,
        contents: BufferContentsView::Indices(indices),
        usage: BufferUsages {
            vertex: false,
            index: true,
            uniform: false,
            storage: false,
            copy_src: false,
            copy_dst: false,
        },
    }
}

impl RenderNodeView {
    /// What the vertex buffer of the node is to hold: the corners as they
    /// were given, each moved by the node's own transform.
    pub open spec fn vertex_contents(self) -> Seq<VertexView> {
        transformed_views(self.vertices, self.node.matrix)
    }

    /// The node with the transform `matrix` and the vertex buffer made for
    /// it.
    pub open spec fn with_matrix(self, matrix: Seq<u32>, vertex_buffer: Buffer) -> RenderNodeView {
        RenderNodeView { node: NodeDataView { name: self.node.name, matrix }, vertex_buffer, ..self }
    }

    /// The render node that is made from the state `device` on, before it
    /// is given a transform: it gets the next two handles, for its vertex
    /// buffer and its index buffer.
    pub open spec fn fresh(
        device: DeviceView,
        name: Seq<char>,
        vertices: Seq<VertexView>,
        indices: Seq<u32>,
        material_bind_group: Option<BindGroup>,
    ) -> RenderNodeView {
        RenderNodeView {
            node: NodeDataView { name, matrix: Mat4::identity_numbers() },
            vertex_buffer: Buffer { id: device.next_id },
            index_buffer: Buffer { id: (device.next_id + 1) as u64 },
            num_elements: indices.len() as u32,
            material_bind_group,
            vertices,
        }
    }

    /// What the device is asked when the node `self` is made, from the
    /// state `device` on: a vertex buffer with the corners as they were
    /// given, then an index buffer.
    pub open spec fn creation(self, device: DeviceView, indices: Seq<u32>) -> DeviceView {
        device.after(
            1,
            DeviceCommandView::CreateBufferInit {
                buffer: self.vertex_buffer,
                descriptor: vertex_buffer_descriptor(self.node.name, self.vertices),
            },
        ).after(
            1,
            DeviceCommandView::CreateBufferInit {
                buffer: self.index_buffer,
                descriptor: index_buffer_descriptor(self.node.name, indices),
            },
        )
    }

    /// What the device is asked when the node, which held the vertex
    /// buffer `replaced` until then, has been given a transform: a vertex
    /// buffer with the moved corners; then the old one is let go.
    pub open spec fn retransformation(self, device: DeviceView, replaced: Buffer) -> DeviceView {
        device.after(
            1,
            DeviceCommandView::CreateBufferInit {
                buffer: self.vertex_buffer,
                descriptor: vertex_buffer_descriptor(self.node.name, self.vertex_contents()),
            },
        ).after(0, DeviceCommandView::Release { id: replaced.id })
    }

    /// The render node that is made with the transform `matrix` from the
    /// state `device` on. Its vertex buffer is the third that the device
    /// makes for it.
    pub open spec fn fresh_with_matrix(
        device: DeviceView,
        name: Seq<char>,
        vertices: Seq<VertexView>,
        indices: Seq<u32>,
        material_bind_group: Option<BindGroup>,
        matrix: Seq<u32>,
    ) -> RenderNodeView {
        Self::fresh(device, name, vertices, indices, material_bind_group).with_matrix(
            matrix,
            Buffer { id: (device.next_id + 2) as u64 },
        )
    }

    /// What the device is asked when the node `self` is made with a
    /// transform, from the state `device` on.
    pub open spec fn creation_with_matrix(self, device: DeviceView, indices: Seq<u32>) -> DeviceView {
        let first = Buffer { id: device.next_id };
        self.retransformation(
            (RenderNodeView { vertex_buffer: first, ..self }).creation(device, indices),
            first,
        )
    }
}

pub(crate) fn buffer_label(name: &String, suffix: &str) -> (label: String)
    ensures
        label@ == name@ + suffix@,
{
    let mut label = name.clone();
    label.append(suffix);
    label
}

impl RenderNode {
    pub(crate) fn new(
        name: String,
        device: &mut Device,
        vertices: &[Vertex],
        indices: &[u32],
        material_bind_group: Option<BindGroup>,
    ) -> (node: RenderNode)
        requires
            old(device)@.remaining() >= 2,
        ensures
            node@ == RenderNodeView::fresh(
                old(device)@,
                name@,
                vertex_views(vertices@),
                indices@,
                material_bind_group,
            ),
            final(device)@ == node@.creation(old(device)@, indices@),
    {
        let vertex_buffer = device.create_buffer_init(
            BufferInitDescriptor {
                label: buffer_label(&name, " Vertex Buffer"),
                contents: BufferContents::Vertices(slice_to_vec(vertices)),
                usage: BufferUsages {
                    vertex: true,
                    index: false,
                    uniform: false,
                    storage: false,
                    copy_src: false,
                    copy_dst: false,
                },
            },
        );
        let index_buffer = device.create_buffer_init(
            BufferInitDescriptor {
                label: buffer_label(&name, " Index Buffer"),
                contents: BufferContents::Indices(slice_to_vec(indices)),
                usage: BufferUsages {
                    vertex: false,
                    index: true,
                    uniform: false,
                    storage: false,
                    copy_src: false,
                    copy_dst: false,
                },
            },
        );
        #[verifier::truncate]
        let num_elements = indices.len() as u32;
        RenderNode {
            node: NodeData::new(name),
            vertex_buffer,
            index_buffer,
            num_elements,
            material_bind_group,
            vertices: slice_to_vec(vertices),
        }
    }

    pub(crate) fn new_with_matrix(
        name: String,
        device: &mut Device,
        vertices: &[Vertex],
        indices: &[u32],
        material_bind_group: Option<BindGroup>,
        matrix: Mat4,
    ) -> (node: RenderNode)
        requires
            old(device)@.remaining() >= 3,
        ensures
            node@ == RenderNodeView::fresh_with_matrix(
                old(device)@,
                name@,
                vertex_views(vertices@),
                indices@,
                material_bind_group,
                matrix@,
            ),
            final(device)@ == node@.creation_with_matrix(old(device)@, indices@),
    {
        let mut render_node = Self::new(name, device, vertices, indices, material_bind_group);
        let moved = render_node.set_matrix(matrix, device);
        assert(moved is Ok);
        render_node
    }

    /// Gives the node the transform `matrix`: moves the corners as they
    /// were given, not as they were moved before, and asks the device for a
    /// vertex buffer that holds them; the buffer that the node held until
    /// then is let go. Fails, and changes nothing, where the device has no
    /// handle left.
    pub fn set_matrix(&mut self, matrix: Mat4, device: &mut Device) -> (moved: Result<(), SceneError>)
        ensures
            match moved {
                Ok(()) => {
                    &&& old(device)@.remaining() >= 1
                    &&& final(self)@ == old(self)@.with_matrix(matrix@, Buffer { id: old(device)@.next_id })
                    &&& final(device)@ == final(self)@.retransformation(old(device)@, old(self).vertex_buffer)
                },
                Err(e) => e == SceneError::ResourceExhaustion && old(device)@.remaining() == 0 && final(self)@
                    == old(self)@ && final(device)@ == old(device)@,
            },
    {
        if device.remaining() == 0 {
            return Err(SceneError::ResourceExhaustion);
        }
        self.node.set_matrix(matrix);
        let transformed_vertices = transform_vertices(&self.vertices, &matrix);
        let replaced = self.vertex_buffer;
        self.vertex_buffer = device.create_buffer_init(
            BufferInitDescriptor {
                label: buffer_label(&self.node.name, " Vertex Buffer"),
                contents: BufferContents::Vertices(transformed_vertices),
                usage: BufferUsages {
                    vertex: true,
                    index: false,
                    uniform: false,
                    storage: false,
                    copy_src: false,
                    copy_dst: false,
                },
            },
        );
        device.release(replaced.id);
        Ok(())
    }
}

impl Node {
    /// The name and transform of the node, whatever its kind.
    pub fn data(&self) -> (data: &NodeData)
        ensures
            data@ == self@.data(),
    {
        match self {
            Node::GroupNode(g) => &g.node,
            Node::RenderNode(r) => &r.node,
            Node::LightNode(l) => &l.node,
        }
    }
}

/// A scene: a tree of nodes under a root group, and what the lights of the
/// tree need on the device.
#[derive(Debug)]
pub struct SceneGraph {
    pub root: Node,
    pub light_bind_group: Option<BindGroup>,
    pub light_bind_group_layout: Option<BindGroupLayout>,
    pub lights_dirty: bool,
    pub supports_storage_resources: bool,
    pub shadow_map: ShadowMap,
}

/// A scene by the view of its tree and the handles that it holds.
pub struct SceneGraphView {
    pub root: NodeView,
    pub light_bind_group: Option<BindGroup>,
    pub light_bind_group_layout: Option<BindGroupLayout>,
    pub lights_dirty: bool,
    pub supports_storage_resources: bool,
    pub shadow_map: ShadowMap,
}

impl View for SceneGraph {
    type V = SceneGraphView;

    open spec fn view(&self) -> SceneGraphView {
        SceneGraphView {
            root: self.root@,
            light_bind_group: self.light_bind_group,
            light_bind_group_layout: self.light_bind_group_layout,
            lights_dirty: self.lights_dirty,
            supports_storage_resources: self.supports_storage_resources,
            shadow_map: self.shadow_map,
        }
    }
}

/// The nodes that a stack of nodes has yet to go through: the tree under
/// its top entry first.
pub open spec fn stack_preorder(stack: Seq<&Node>) -> Seq<NodeView>
    decreases stack.len(),
{
    if stack.len() == 0 {
        Seq::empty()
    } else {
        preorder(stack.last()@) + stack_preorder(stack.drop_last())
    }
}

proof fn lemma_stack_preorder_push(stack: Seq<&Node>, node: &Node)
    ensures
        stack_preorder(stack.push(node)) == preorder(node@) + stack_preorder(stack),
{
    assert(stack.push(node).drop_last() =~= stack);
}

/// The places of a path as integers.
pub open spec fn places(path: Seq<usize>) -> Seq<int> {
    path.map_values(|i: usize| i as int)
}

/// The name that a search goes by, if it goes by one.
pub open spec fn name_view(name: Option<&str>) -> Option<Seq<char>> {
    match name {
        Some(n) => Some(n@),
        None => None,
    }
}

fn search_path_in(node: &Node, key: &String) -> (path: Option<Vec<usize>>)
    ensures
        match path {
            Some(p) => search_in(node@, key@) == Some(places(p@)),
            None => search_in(node@, key@) is None,
        },
    decreases node,
{
    if node.data().name == *key {
        let path: Vec<usize> = Vec::new();
        assert(places(path@) =~= Seq::<int>::empty());
        return Some(path);
    }
    match node {
        Node::GroupNode(group) => {
            let n = group.children.len();
            let mut k: usize = n;
            while k > 0
                invariant
                    k <= n,
                    n == group.children.len(),
                    node@ == NodeView::GroupNode(group@),
                    *node == Node::GroupNode(*group),
                    node@.data().name != key@,
                    search_in(node@, key@) == search_children(group@.children, key@, k as int),
                decreases k,
            {
                k -= 1;
                assert(group@.children[k as int] == group.children[k as int]@);
                match search_path_in(&group.children[k], key) {
                    Some(mut path) => {
                        let ghost below = places(path@);
                        path.insert(0, k);
                        assert(places(path@) =~= seq![k as int] + below);
                        return Some(path);
                    },
                    None => {},
                }
            }
            None
        },
        _ => None,
    }
}

pub(crate) fn node_ref_at<'a>(node: &'a Node, path: &Vec<usize>, from: usize) -> (found: &'a Node)
    requires
        from <= path.len(),
        valid_path(node@, places(path@).skip(from as int)),
    ensures
        found@ == node_at(node@, places(path@).skip(from as int)),
    decreases path.len() - from,
{
    let ghost rest = places(path@).skip(from as int);
    if from == path.len() {
        node
    } else {
        assert(rest.drop_first() =~= places(path@).skip(from + 1));
        assert(rest[0] == path[from as int]);
        match node {
            Node::GroupNode(group) => {
                let i = path[from];
                assert(group@.children[i as int] == group.children[i as int]@);
                node_ref_at(&group.children[i], path, from + 1)
            },
            _ => node,
        }
    }
}

proof fn lemma_node_views_push(nodes: Seq<Node>, node: Node)
    ensures
        node_views(nodes.push(node)) == node_views(nodes).push(node@),
{
    assert(node_views(nodes.push(node)) =~= node_views(nodes).push(node@));
}

proof fn lemma_node_views_update(nodes: Seq<Node>, i: int, node: Node)
    requires
        0 <= i < nodes.len(),
    ensures
        node_views(nodes.update(i, node)) == node_views(nodes).update(i, node@),
{
    assert(node_views(nodes.update(i, node)) =~= node_views(nodes).update(i, node@));
}

pub(crate) fn node_at_mut<'a>(node: &'a mut Node, path: &Vec<usize>, from: usize) -> (found: &'a mut Node)
    requires
        from <= path.len(),
        valid_path(old(node)@, places(path@).skip(from as int)),
    ensures
        found@ == node_at(old(node)@, places(path@).skip(from as int)),
        final(node)@ == replace_at(old(node)@, places(path@).skip(from as int), final(found)@),
    decreases path.len() - from,
{
    let ghost rest = places(path@).skip(from as int);
    if from == path.len() {
        assert(rest.len() == 0);
        node
    } else {
        assert(rest.drop_first() =~= places(path@).skip(from + 1));
        assert(rest[0] == path[from as int]);
        match node {
            Node::GroupNode(group) => {
                let i = path[from];
                let ghost before = group@;
                assert(before.children[i as int] == group.children[i as int]@);
                proof {
                    let children = group.children@;
                    assert forall|child: Node|
                        node_views(children.update(i as int, child)) == before.children.update(
                            i as int,
                            #[trigger] child.view(),
                        ) by {
                        lemma_node_views_update(children, i as int, child);
                    }
                }
                node_at_mut(&mut group.children[i], path, from + 1)
            },
            _ => node,
        }
    }
}

impl SceneGraph {
    /// A scene with nothing but its root, a group named `root`.
    pub fn new(supports_storage_resources: bool, shadow_map: ShadowMap) -> (graph: SceneGraph)
        ensures
            graph@ == (SceneGraphView {
                root: NodeView::GroupNode(
                    GroupNodeView {
                        node: NodeDataView { name: "root"@, matrix: Mat4::identity_numbers() },
                        children: Seq::empty(),
                    },
                ),
                light_bind_group: None,
                light_bind_group_layout: None,
                lights_dirty: false,
                supports_storage_resources,
                shadow_map,
            }),
            graph@.lights().len() == 0,
            graph@.render_nodes().len() == 0,
            graph@.lights_synced(),
    {
        proof {
            let root = NodeView::GroupNode(
                GroupNodeView {
                    node: NodeDataView { name: "root"@, matrix: Mat4::identity_numbers() },
                    children: Seq::empty(),
                },
            );
            let walk = visits(root, Mat4::identity_numbers());
            assert(walk.len() == 1);
            assert(walk.drop_first() =~= Seq::<Visit>::empty());
            assert(light_items(Seq::<Visit>::empty()) =~= Seq::empty());
            assert(render_items(Seq::<Visit>::empty()) =~= Seq::empty());
        }
        SceneGraph {
            root: Node::GroupNode(GroupNode::new(String::from_str("root"))),
            light_bind_group: None,
            light_bind_group_layout: None,
            lights_dirty: false,
            supports_storage_resources,
            shadow_map,
        }
    }

    /// The first node in the order of the walk that carries `name`: of two
    /// nodes with one name, the one that the walk reaches first.
    pub fn find_child(&self, name: &str) -> (found: Option<&Node>)
        ensures
            match found {
                Some(node) => first_named(preorder(self@.root), name@) == Some(node@),
                None => first_named(preorder(self@.root), name@) is None,
            },
    {
        self.find_child_deep(name)
    }

    /// The node that the search by `name` finds, to be changed in place:
    /// the first node in the order of the walk that carries the name, as
    /// [`SceneGraph::find_child`] finds it; of two nodes with one name, the
    /// one that the walk reaches first. Without a name it is the root.
    pub fn find_child_mut(&mut self, name: Option<&str>) -> (found: Option<&mut Node>)
        ensures
            match found {
                Some(node) => {
                    &&& name matches Some(n) ==> first_named(preorder(old(self)@.root), n@) == Some(node@)
                    &&& name is None ==> node@ == old(self)@.root
                    &&& search(old(self)@.root, name_view(name)) is Some
                    &&& node@ == node_at(old(self)@.root, search(old(self)@.root, name_view(name))->0)
                    &&& final(self)@ == (SceneGraphView {
                        root: replace_at(
                            old(self)@.root,
                            search(old(self)@.root, name_view(name))->0,
                            final(node)@,
                        ),
                        ..old(self)@
                    })
                },
                None => {
                    &&& name is Some
                    &&& first_named(preorder(old(self)@.root), name->0@) is None
                    &&& search(old(self)@.root, name_view(name)) is None
                    &&& final(self)@ == old(self)@
                },
            },
    {
        match name {
            Some(name) => self.find_child_mut_deep(name),
            None => {
                proof {
                    assert(replace_at(old(self)@.root, Seq::<int>::empty(), final(self)@.root) == final(self)@.root);
                }
                Some(&mut self.root)
            },
        }
    }

    /// The way to the node that a search by `name` finds.
    pub(crate) fn search_path(&self, name: Option<&str>) -> (path: Option<Vec<usize>>)
        ensures
            match path {
                Some(p) => search(self@.root, name_view(name)) == Some(places(p@)) && valid_path(
                    self@.root,
                    places(p@),
                ),
                None => search(self@.root, name_view(name)) is None,
            },
    {
        proof {
            lemma_search_finds(self@.root, name_view(name));
        }
        match name {
            None => {
                let path: Vec<usize> = Vec::new();
                assert(places(path@) =~= Seq::<int>::empty());
                Some(path)
            },
            Some(name) => {
                let key = String::from_str(name);
                search_path_in(&self.root, &key)
            },
        }
    }

    /// The way to the group that a child for `parent` goes under.
    pub(crate) fn parent_path(&self, parent: Option<&str>) -> (path: Result<Vec<usize>, SceneError>)
        ensures
            match path {
                Ok(p) => {
                    &&& parent_error(self@.root, name_view(parent)) is None
                    &&& search(self@.root, name_view(parent)) == Some(places(p@))
                    &&& valid_path(self@.root, places(p@))
                    &&& node_at(self@.root, places(p@)) is GroupNode
                },
                Err(e) => parent_error(self@.root, name_view(parent)) == Some(e),
            },
    {
        match self.search_path(parent) {
            None => Err(SceneError::NotFound),
            Some(path) => {
                assert(places(path@).skip(0) =~= places(path@));
                match node_ref_at(&self.root, &path, 0) {
                    Node::GroupNode(_) => Ok(path),
                    _ => Err(SceneError::WrongNodeKind),
                }
            },
        }
    }

    /// Adds `child` as the last child of the group that `path` leads to.
    pub(crate) fn attach(&mut self, path: &Vec<usize>, child: Node)
        requires
            valid_path(old(self)@.root, places(path@)),
            node_at(old(self)@.root, places(path@)) is GroupNode,
        ensures
            final(self)@ == (SceneGraphView {
                root: with_child(old(self)@.root, places(path@), child@),
                ..old(self)@
            }),
    {
        assert(places(path@).skip(0) =~= places(path@));
        let node = node_at_mut(&mut self.root, path, 0);
        match node {
            Node::GroupNode(group) => {
                proof {
                    lemma_node_views_push(group.children@, child);
                }
                group.children.push(child);
            },
            _ => {},
        }
    }

    /// Adds `child` as the last child of the group that the search finds
    /// under the name `parent`, or of the root where there is no name.
    /// Fails, and changes nothing, where no node carries the name or where
    /// the node found is no group.
    pub fn add_child(&mut self, parent: Option<&str>, child: Node) -> (added: Result<(), SceneError>)
        ensures
            match added {
                Ok(()) => {
                    &&& parent_error(old(self)@.root, name_view(parent)) is None
                    &&& final(self)@ == (SceneGraphView {
                        root: with_child(
                            old(self)@.root,
                            search(old(self)@.root, name_view(parent))->0,
                            child@,
                        ),
                        ..old(self)@
                    })
                },
                Err(e) => parent_error(old(self)@.root, name_view(parent)) == Some(e) && final(self)@ == old(
                    self,
                )@,
            },
    {
        match self.parent_path(parent) {
            Ok(path) => {
                self.attach(&path, child);
                Ok(())
            },
            Err(e) => Err(e),
        }
    }

    fn find_child_mut_deep(&mut self, name: &str) -> (found: Option<&mut Node>)
        ensures
            match found {
                Some(node) => {
                    &&& first_named(preorder(old(self)@.root), name@) == Some(node@)
                    &&& search(old(self)@.root, Some(name@)) is Some
                    &&& node@ == node_at(old(self)@.root, search(old(self)@.root, Some(name@))->0)
                    &&& final(self)@ == (SceneGraphView {
                        root: replace_at(old(self)@.root, search(old(self)@.root, Some(name@))->0, final(node)@),
                        ..old(self)@
                    })
                },
                None => {
                    &&& first_named(preorder(old(self)@.root), name@) is None
                    &&& search(old(self)@.root, Some(name@)) is None
                    &&& final(self)@ == old(self)@
                },
            },
    {
        proof {
            lemma_search_finds(self@.root, Some(name@));
        }
        match self.search_path(Some(name)) {
            Some(path) => {
                assert(places(path@).skip(0) =~= places(path@));
                Some(node_at_mut(&mut self.root, &path, 0))
            },
            None => None,
        }
    }

    fn find_child_deep(&self, name: &str) -> (found: Option<&Node>)
        ensures
            match found {
                Some(node) => first_named(preorder(self@.root), name@) == Some(node@),
                None => first_named(preorder(self@.root), name@) is None,
            },
    {
        let key = String::from_str(name);
        let mut stack: Vec<&Node> = Vec::new();
        stack.push(&self.root);
        proof {
            lemma_stack_preorder_push(Seq::empty(), &self.root);
            assert(stack@ =~= Seq::<&Node>::empty().push(&self.root));
            assert(preorder(self@.root) + Seq::<NodeView>::empty() =~= preorder(self@.root));
        }
        loop
            invariant
                key@ == name@,
                first_named(stack_preorder(stack@), name@) == first_named(preorder(self@.root), name@),
            decreases stack_preorder(stack@).len(),
        {
            let ghost before = stack@;
            match stack.pop() {
                None => {
                    return None;
                },
                Some(node) => {
                    let ghost rest = stack@;
                    assert(before.drop_last() =~= rest);
                    proof {
                        lemma_first_named_add(preorder(node@), stack_preorder(rest), name@);
                    }
                    if node.data().name == key {
                        return Some(node);
                    }
                    match node {
                        Node::GroupNode(group) => {
                            let mut i: usize = 0;
                            while i < group.children.len()
                                invariant
                                    i <= group.children.len(),
                                    stack_preorder(stack@) == preorder_children(group@.children, i as int)
                                        + stack_preorder(rest),
                                decreases group.children.len() - i,
                            {
                                proof {
                                    lemma_stack_preorder_push(stack@, &group.children[i as int]);
                                    assert(group@.children[i as int] == group.children[i as int]@);
                                    assert(preorder_children(group@.children, i + 1) + stack_preorder(rest)
                                        =~= preorder(group@.children[i as int]) + (preorder_children(
                                        group@.children,
                                        i as int,
                                    ) + stack_preorder(rest)));
                                }
                                stack.push(&group.children[i]);
                                i += 1;
                            }
                            proof {
                                let tail = preorder_children(group@.children, group@.children.len() as int);
                                lemma_first_named_add(seq![node@], tail, name@);
                                lemma_first_named_add(seq![node@] + tail, stack_preorder(rest), name@);
                                lemma_first_named_add(seq![node@], tail + stack_preorder(rest), name@);
                                assert(seq![node@] + (tail + stack_preorder(rest)) =~= (seq![node@] + tail)
                                    + stack_preorder(rest));
                                assert(seq![node@].drop_first() =~= Seq::<NodeView>::empty());
                                assert(first_named(Seq::<NodeView>::empty(), name@) is None);
                            }
                        },
                        _ => {
                            proof {
                                assert(seq![node@].drop_first() =~= Seq::<NodeView>::empty());
                                assert(first_named(Seq::<NodeView>::empty(), name@) is None);
                            }
                        },
                    }
                },
            }
        }
    }
}

} // verus!
