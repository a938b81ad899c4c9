//! What holds of the scene graph as a whole.

use vstd::prelude::*;
use crate::device::DeviceView;
use crate::light::light_layout_descriptor;
use crate::math::mat4_product;
use crate::scenegraph::{
    vertex_buffer_descriptor, LightNodeView, NodeView, RenderNodeView, SceneGraphView,
};
use crate::gpu::Buffer;
use crate::math::Mat4;
use crate::traversal::{
    first_named, lemma_first_named_add, lemma_light_items_add, lemma_search_finds,
    lemma_light_items_len, lemma_render_items_add, lemma_render_items_len, lemma_visit_nodes,
    light_count, light_items, node_at, preorder, preorder_children, render_count, render_items,
    search, valid_path, visit_nodes, visits, visits_children, Visit,
};

verus! {

/// The world transform of the node that `path` leads to from `node`, where
/// `parent` is the world transform above `node`: the product of `parent`
/// and of the transforms of the nodes on the way, from `node` down to the
/// node itself, each multiplied from the right.
pub open spec fn world_at(node: NodeView, path: Seq<int>, parent: Seq<u32>) -> Seq<u32>
    decreases path.len(),
{
    let world = mat4_product(parent, node.data().matrix);
    if path.len() == 0 {
        world
    } else {
        world_at(node.children()[path[0]], path.drop_first(), world)
    }
}

proof fn lemma_render_items_contains(a: Seq<Visit>, b: Seq<Visit>, item: (RenderNodeView, Seq<u32>))
    ensures
        render_items(a).contains(item) ==> render_items(a + b).contains(item),
        render_items(b).contains(item) ==> render_items(a + b).contains(item),
{
    lemma_render_items_add(a, b);
    let ra = render_items(a);
    let rb = render_items(b);
    if ra.contains(item) {
        let i = choose|i: int| 0 <= i < ra.len() && ra[i] == item;
        assert((ra + rb)[i] == item);
    }
    if rb.contains(item) {
        let i = choose|i: int| 0 <= i < rb.len() && rb[i] == item;
        assert((ra + rb)[ra.len() + i] == item);
    }
}

proof fn lemma_light_items_contains(a: Seq<Visit>, b: Seq<Visit>, item: (LightNodeView, Seq<u32>))
    ensures
        light_items(a).contains(item) ==> light_items(a + b).contains(item),
        light_items(b).contains(item) ==> light_items(a + b).contains(item),
{
    lemma_light_items_add(a, b);
    let la = light_items(a);
    let lb = light_items(b);
    if la.contains(item) {
        let i = choose|i: int| 0 <= i < la.len() && la[i] == item;
        assert((la + lb)[i] == item);
    }
    if lb.contains(item) {
        let i = choose|i: int| 0 <= i < lb.len() && lb[i] == item;
        assert((la + lb)[la.len() + i] == item);
    }
}

proof fn lemma_child_render_items(
    children: Seq<NodeView>,
    world: Seq<u32>,
    k: int,
    i: int,
    item: (RenderNodeView, Seq<u32>),
)
    requires
        0 <= i < k <= children.len(),
        render_items(visits(children[i], world)).contains(item),
    ensures
        render_items(visits_children(children, world, k)).contains(item),
    decreases k,
{
    lemma_render_items_contains(visits(children[k - 1], world), visits_children(children, world, k - 1), item);
    if i < k - 1 {
        lemma_child_render_items(children, world, k - 1, i, item);
    }
}

proof fn lemma_child_light_items(
    children: Seq<NodeView>,
    world: Seq<u32>,
    k: int,
    i: int,
    item: (LightNodeView, Seq<u32>),
)
    requires
        0 <= i < k <= children.len(),
        light_items(visits(children[i], world)).contains(item),
    ensures
        light_items(visits_children(children, world, k)).contains(item),
    decreases k,
{
    lemma_light_items_contains(visits(children[k - 1], world), visits_children(children, world, k - 1), item);
    if i < k - 1 {
        lemma_child_light_items(children, world, k - 1, i, item);
    }
}

/// World transforms compose from the root down. A walk that starts under
/// the transform `parent` gives every render node of the tree, and gives it
/// with the product of `parent` and of the transforms of the nodes on the
/// way from the root to the render node, the root's first and the render
/// node's own last.
pub proof fn lemma_render_world_transform(root: NodeView, path: Seq<int>, parent: Seq<u32>)
    requires
        valid_path(root, path),
        node_at(root, path) is RenderNode,
    ensures
        render_items(visits(root, parent)).contains(
            (node_at(root, path)->RenderNode_0, world_at(root, path, parent)),
        ),
    decreases path.len(),
{
    let world = mat4_product(parent, root.data().matrix);
    let stop = seq![Visit { node: root, world }];
    let item = (node_at(root, path)->RenderNode_0, world_at(root, path, parent));
    if path.len() == 0 {
        assert(visits(root, parent) =~= stop);
        assert(stop.drop_first() =~= Seq::<Visit>::empty());
        assert(render_items(Seq::<Visit>::empty()) =~= Seq::empty());
        assert(render_items(stop) =~= seq![item]);
        assert(render_items(stop)[0] == item);
    } else {
        let children = root.children();
        lemma_render_world_transform(children[path[0]], path.drop_first(), world);
        lemma_child_render_items(children, world, children.len() as int, path[0], item);
        lemma_render_items_contains(stop, visits_children(children, world, children.len() as int), item);
    }
}

/// World transforms compose from the root down for the lights as for the
/// render nodes.
pub proof fn lemma_light_world_transform(root: NodeView, path: Seq<int>, parent: Seq<u32>)
    requires
        valid_path(root, path),
        node_at(root, path) is LightNode,
    ensures
        light_items(visits(root, parent)).contains(
            (node_at(root, path)->LightNode_0, world_at(root, path, parent)),
        ),
    decreases path.len(),
{
    let world = mat4_product(parent, root.data().matrix);
    let stop = seq![Visit { node: root, world }];
    let item = (node_at(root, path)->LightNode_0, world_at(root, path, parent));
    if path.len() == 0 {
        assert(visits(root, parent) =~= stop);
        assert(stop.drop_first() =~= Seq::<Visit>::empty());
        assert(light_items(Seq::<Visit>::empty()) =~= Seq::empty());
        assert(light_items(stop) =~= seq![item]);
        assert(light_items(stop)[0] == item);
    } else {
        let children = root.children();
        lemma_light_world_transform(children[path[0]], path.drop_first(), world);
        lemma_child_light_items(children, world, children.len() as int, path[0], item);
        lemma_light_items_contains(stop, visits_children(children, world, children.len() as int), item);
    }
}

proof fn lemma_render_item_side(a: Seq<Visit>, b: Seq<Visit>, item: (RenderNodeView, Seq<u32>))
    requires
        render_items(a + b).contains(item),
    ensures
        render_items(a).contains(item) || render_items(b).contains(item),
{
    lemma_render_items_add(a, b);
    let ra = render_items(a);
    let rb = render_items(b);
    let i = choose|i: int| 0 <= i < (ra + rb).len() && (ra + rb)[i] == item;
    if i < ra.len() {
        assert(ra[i] == item);
    } else {
        assert(rb[i - ra.len()] == item);
    }
}

proof fn lemma_light_item_side(a: Seq<Visit>, b: Seq<Visit>, item: (LightNodeView, Seq<u32>))
    requires
        light_items(a + b).contains(item),
    ensures
        light_items(a).contains(item) || light_items(b).contains(item),
{
    lemma_light_items_add(a, b);
    let la = light_items(a);
    let lb = light_items(b);
    let i = choose|i: int| 0 <= i < (la + lb).len() && (la + lb)[i] == item;
    if i < la.len() {
        assert(la[i] == item);
    } else {
        assert(lb[i - la.len()] == item);
    }
}

/// The walk gives nothing but the render nodes of the tree. Whatever a
/// walk under the transform `parent` gives as a render node with a world
/// transform stands at the end of a way through the tree, which is the
/// result, and the transform is the product along that way.
pub proof fn lemma_render_item_is_a_leaf(root: NodeView, parent: Seq<u32>, item: (RenderNodeView, Seq<u32>)) -> (path:
    Seq<int>)
    requires
        render_items(visits(root, parent)).contains(item),
    ensures
        valid_path(root, path),
        node_at(root, path) == NodeView::RenderNode(item.0),
        world_at(root, path, parent) == item.1,
    decreases root, 0int,
{
    let world = mat4_product(parent, root.data().matrix);
    let stop = seq![Visit { node: root, world }];
    assert(stop.drop_first() =~= Seq::<Visit>::empty());
    assert(render_items(Seq::<Visit>::empty()) =~= Seq::empty());
    match root {
        NodeView::GroupNode(g) => {
            let below = visits_children(g.children, world, g.children.len() as int);
            lemma_render_item_side(stop, below, item);
            assert(render_items(stop) =~= Seq::empty());
            let path = lemma_render_item_under_children(g.children, world, g.children.len() as int, item);
            assert(node_at(root, path) == node_at(g.children[path[0]], path.drop_first()));
            path
        },
        NodeView::RenderNode(r) => {
            assert(visits(root, parent) =~= stop);
            assert(render_items(stop) =~= seq![(r, world)]);
            assert(render_items(stop)[0] == item);
            Seq::empty()
        },
        NodeView::LightNode(_) => {
            assert(visits(root, parent) =~= stop);
            assert(render_items(stop) =~= Seq::empty());
            Seq::empty()
        },
    }
}

proof fn lemma_render_item_under_children(
    children: Seq<NodeView>,
    world: Seq<u32>,
    k: int,
    item: (RenderNodeView, Seq<u32>),
) -> (path: Seq<int>)
    requires
        render_items(visits_children(children, world, k)).contains(item),
    ensures
        path.len() > 0,
        0 <= path[0] < children.len(),
        valid_path(children[path[0]], path.drop_first()),
        node_at(children[path[0]], path.drop_first()) == NodeView::RenderNode(item.0),
        world_at(children[path[0]], path.drop_first(), world) == item.1,
    decreases children, k,
{
    if 0 < k <= children.len() {
        lemma_render_item_side(visits(children[k - 1], world), visits_children(children, world, k - 1), item);
        if render_items(visits(children[k - 1], world)).contains(item) {
            let below = lemma_render_item_is_a_leaf(children[k - 1], world, item);
            let path = seq![k - 1] + below;
            assert(path.drop_first() =~= below);
            path
        } else {
            lemma_render_item_under_children(children, world, k - 1, item)
        }
    } else {
        assert(render_items(Seq::<Visit>::empty()) =~= Seq::empty());
        Seq::empty()
    }
}

/// The walk gives nothing but the lights of the tree. Whatever a walk
/// under the transform `parent` gives as a light with a world transform
/// stands at the end of a way through the tree, which is the result, and
/// the transform is the product along that way.
pub proof fn lemma_light_item_is_a_leaf(root: NodeView, parent: Seq<u32>, item: (LightNodeView, Seq<u32>)) -> (path:
    Seq<int>)
    requires
        light_items(visits(root, parent)).contains(item),
    ensures
        valid_path(root, path),
        node_at(root, path) == NodeView::LightNode(item.0),
        world_at(root, path, parent) == item.1,
    decreases root, 0int,
{
    let world = mat4_product(parent, root.data().matrix);
    let stop = seq![Visit { node: root, world }];
    assert(stop.drop_first() =~= Seq::<Visit>::empty());
    assert(light_items(Seq::<Visit>::empty()) =~= Seq::empty());
    match root {
        NodeView::GroupNode(g) => {
            let below = visits_children(g.children, world, g.children.len() as int);
            lemma_light_item_side(stop, below, item);
            assert(light_items(stop) =~= Seq::empty());
            let path = lemma_light_item_under_children(g.children, world, g.children.len() as int, item);
            assert(node_at(root, path) == node_at(g.children[path[0]], path.drop_first()));
            path
        },
        NodeView::LightNode(l) => {
            assert(visits(root, parent) =~= stop);
            assert(light_items(stop) =~= seq![(l, world)]);
            assert(light_items(stop)[0] == item);
            Seq::empty()
        },
        NodeView::RenderNode(_) => {
            assert(visits(root, parent) =~= stop);
            assert(light_items(stop) =~= Seq::empty());
            Seq::empty()
        },
    }
}

proof fn lemma_light_item_under_children(
    children: Seq<NodeView>,
    world: Seq<u32>,
    k: int,
    item: (LightNodeView, Seq<u32>),
) -> (path: Seq<int>)
    requires
        light_items(visits_children(children, world, k)).contains(item),
    ensures
        path.len() > 0,
        0 <= path[0] < children.len(),
        valid_path(children[path[0]], path.drop_first()),
        node_at(children[path[0]], path.drop_first()) == NodeView::LightNode(item.0),
        world_at(children[path[0]], path.drop_first(), world) == item.1,
    decreases children, k,
{
    if 0 < k <= children.len() {
        lemma_light_item_side(visits(children[k - 1], world), visits_children(children, world, k - 1), item);
        if light_items(visits(children[k - 1], world)).contains(item) {
            let below = lemma_light_item_is_a_leaf(children[k - 1], world, item);
            let path = seq![k - 1] + below;
            assert(path.drop_first() =~= below);
            path
        } else {
            lemma_light_item_under_children(children, world, k - 1, item)
        }
    } else {
        assert(light_items(Seq::<Visit>::empty()) =~= Seq::empty());
        Seq::empty()
    }
}

/// The walk through a scene gives as many render nodes as the tree holds,
/// and as many lights: the iterators come to an end after that many items,
/// and two iterators over one scene give the same items in the same order,
/// since what they give is fixed by the scene.
pub proof fn lemma_walk_gives_every_leaf_once(scene: SceneGraphView)
    ensures
        scene.render_nodes().len() == render_count(scene.root),
        scene.lights().len() == light_count(scene.root),
{
    lemma_render_items_len(scene.root, Mat4::identity_numbers());
    lemma_light_items_len(scene.root, Mat4::identity_numbers());
}

/// The walk that gives the render nodes and the lights goes through the
/// nodes in the order in which the search for a node to read looks at
/// them.
pub proof fn lemma_walk_and_search_share_their_order(scene: SceneGraphView)
    ensures
        visit_nodes(visits(scene.root, Mat4::identity_numbers())) == preorder(scene.root),
{
    lemma_visit_nodes(scene.root, Mat4::identity_numbers());
}

/// Giving a render node the same transform twice in a row asks the device
/// both times for a vertex buffer with the same label and the same
/// contents: the corners are moved from where they were given, not from
/// where the first transform put them.
pub proof fn lemma_set_matrix_twice(node: RenderNodeView, matrix: Seq<u32>, first: Buffer, second: Buffer)
    ensures
        ({
            let once = node.with_matrix(matrix, first);
            let twice = once.with_matrix(matrix, second);
            &&& twice.vertex_contents() == once.vertex_contents()
            &&& vertex_buffer_descriptor(twice.node.name, twice.vertex_contents()) == vertex_buffer_descriptor(
                once.node.name,
                once.vertex_contents(),
            )
            &&& twice.vertices == node.vertices
        }),
{
}

/// The layout of the bind group of the lights tells how many lights there
/// are: layouts for different counts differ.
pub proof fn lemma_light_count_drives_layout(first: u32, second: u32, supports_storage_resources: bool)
    requires
        first != second,
    ensures
        light_layout_descriptor(first, supports_storage_resources) != light_layout_descriptor(
            second,
            supports_storage_resources,
        ),
{
    let a = light_layout_descriptor(first, supports_storage_resources);
    let b = light_layout_descriptor(second, supports_storage_resources);
    assert(a.entries[0].count != b.entries[0].count);
}

/// Where a scene with a light has its bind group for the lights made
/// anew, the bind group and the layout that it had before are no longer
/// those of the scene, provided that the device gave them.
pub proof fn lemma_light_bind_group_replaced(scene: SceneGraphView, device: DeviceView)
    requires
        scene.lights().len() > 0,
        scene.light_update_error(device) is None,
        scene.light_bind_group matches Some(bind_group) ==> bind_group.id < device.next_id,
        scene.light_bind_group_layout matches Some(layout) ==> layout.id < device.next_id,
    ensures
        scene.after_light_update(device).light_bind_group is Some,
        scene.after_light_update(device).light_bind_group != scene.light_bind_group,
        scene.after_light_update(device).light_bind_group_layout is Some,
        scene.after_light_update(device).light_bind_group_layout != scene.light_bind_group_layout,
{
}

/// A scene that is in step with its lights and has no light has no bind
/// group for lights and no layout for one.
pub proof fn lemma_no_light_no_bind_group(scene: SceneGraphView)
    requires
        scene.lights_synced(),
        scene.lights().len() == 0,
    ensures
        scene.light_bind_group is None,
        scene.light_bind_group_layout is None,
{
}

/// Of the children of a group that carry one name, the search for a node
/// to read finds the one that was added last, where neither the group
/// itself nor anything under a child added after that one carries the
/// name.
pub proof fn lemma_find_prefers_last_added(root: NodeView, name: Seq<char>, i: int)
    requires
        root is GroupNode,
        root.data().name != name,
        0 <= i < root.children().len(),
        root.children()[i].data().name == name,
        forall|j: int| i < j < root.children().len() ==> first_named(preorder(#[trigger] root.children()[j]), name) is None,
    ensures
        first_named(preorder(root), name) == Some(root.children()[i]),
{
    let children = root.children();
    lemma_later_children_skipped(children, name, i, children.len() as int);
    lemma_first_named_add(seq![root], preorder_children(children, children.len() as int), name);
    assert(seq![root].drop_first() =~= Seq::<NodeView>::empty());
    assert(first_named(Seq::<NodeView>::empty(), name) is None);
}

proof fn lemma_later_children_skipped(children: Seq<NodeView>, name: Seq<char>, i: int, k: int)
    requires
        0 <= i < k <= children.len(),
        children[i].data().name == name,
        forall|j: int| i < j < children.len() ==> first_named(preorder(#[trigger] children[j]), name) is None,
    ensures
        first_named(preorder_children(children, k), name) == Some(children[i]),
    decreases k,
{
    lemma_first_named_add(preorder(children[k - 1]), preorder_children(children, k - 1), name);
    if i < k - 1 {
        lemma_later_children_skipped(children, name, i, k - 1);
    } else {
        let node = children[i];
        match node {
            NodeView::GroupNode(g) => {
                lemma_first_named_add(seq![node], preorder_children(g.children, g.children.len() as int), name);
            },
            _ => {},
        }
    }
}

/// The search for a node to change and the search for a node to read find
/// the same node: the first in the order of the walk that carries the
/// name. Where the one finds none, so does the other.
pub proof fn lemma_searches_agree(root: NodeView, name: Seq<char>)
    ensures
        match search(root, Some(name)) {
            Some(path) => valid_path(root, path) && first_named(preorder(root), name) == Some(node_at(root, path)),
            None => first_named(preorder(root), name) is None,
        },
{
    lemma_search_finds(root, Some(name));
}

/// Of the children of a group that carry one name, the search for a node
/// to change leads to the one that was added last, where neither the group
/// itself nor anything under a child added after that one carries the
/// name.
pub proof fn lemma_find_mut_prefers_last_added(root: NodeView, name: Seq<char>, i: int)
    requires
        root is GroupNode,
        root.data().name != name,
        0 <= i < root.children().len(),
        root.children()[i].data().name == name,
        forall|j: int| i < j < root.children().len() ==> first_named(preorder(#[trigger] root.children()[j]), name) is None,
    ensures
        search(root, Some(name)) is Some,
        node_at(root, search(root, Some(name))->0) == root.children()[i],
{
    lemma_find_prefers_last_added(root, name, i);
    lemma_search_finds(root, Some(name));
}

} // verus!
