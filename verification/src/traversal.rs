//! The order of the walk through a tree of nodes, and what follows from
//! it.

use vstd::prelude::*;
use crate::error::SceneError;
use crate::math::mat4_product;
use crate::scenegraph::{GroupNodeView, LightNodeView, NodeView, RenderNodeView};

verus! {

/// One stop of a walk through the tree: a node, and its world transform,
/// which is the product of the transforms on the way from the root down to
/// the node itself.
pub struct Visit {
    pub node: NodeView,
    pub world: Seq<u32>,
}

/// The walk through the tree under `node`, where `parent` is the world
/// transform of the node's parent. A node comes before everything under it,
/// and of two children the one that was added later comes first, with
/// everything under it.
pub open spec fn visits(node: NodeView, parent: Seq<u32>) -> Seq<Visit>
    decreases node, 0int,
{
    let world = mat4_product(parent, node.data().matrix);
    match node {
        NodeView::GroupNode(g) => seq![Visit { node, world }] + visits_children(g.children, world, g.children.len() as int),
        _ => seq![Visit { node, world }],
    }
}

/// The walks through the first `k` of `children`, the last of them first.
pub open spec fn visits_children(children: Seq<NodeView>, world: Seq<u32>, k: int) -> Seq<Visit>
    decreases children, k,
{
    if 0 < k <= children.len() {
        visits(children[k - 1], world) + visits_children(children, world, k - 1)
    } else {
        Seq::empty()
    }
}

/// The nodes of the tree under `node` in the order of the walk.
pub open spec fn preorder(node: NodeView) -> Seq<NodeView>
    decreases node, 0int,
{
    match node {
        NodeView::GroupNode(g) => seq![node] + preorder_children(g.children, g.children.len() as int),
        _ => seq![node],
    }
}

/// The nodes under the first `k` of `children`, the last of them first.
pub open spec fn preorder_children(children: Seq<NodeView>, k: int) -> Seq<NodeView>
    decreases children, k,
{
    if 0 < k <= children.len() {
        preorder(children[k - 1]) + preorder_children(children, k - 1)
    } else {
        Seq::empty()
    }
}

/// The nodes of a walk.
pub open spec fn visit_nodes(walk: Seq<Visit>) -> Seq<NodeView> {
    walk.map_values(|v: Visit| v.node)
}

/// The render nodes of a walk, each with its world transform, in the order
/// of the walk.
pub open spec fn render_items(walk: Seq<Visit>) -> Seq<(RenderNodeView, Seq<u32>)>
    decreases walk.len(),
{
    if walk.len() == 0 {
        Seq::empty()
    } else {
        match walk[0].node {
            NodeView::RenderNode(r) => seq![(r, walk[0].world)] + render_items(walk.drop_first()),
            _ => render_items(walk.drop_first()),
        }
    }
}

/// The light nodes of a walk, each with its world transform, in the order
/// of the walk.
pub open spec fn light_items(walk: Seq<Visit>) -> Seq<(LightNodeView, Seq<u32>)>
    decreases walk.len(),
{
    if walk.len() == 0 {
        Seq::empty()
    } else {
        match walk[0].node {
            NodeView::LightNode(l) => seq![(l, walk[0].world)] + light_items(walk.drop_first()),
            _ => light_items(walk.drop_first()),
        }
    }
}

/// The first node of a list that carries `name`.
pub open spec fn first_named(nodes: Seq<NodeView>, name: Seq<char>) -> Option<NodeView>
    decreases nodes.len(),
{
    if nodes.len() == 0 {
        None
    } else if nodes[0].data().name == name {
        Some(nodes[0])
    } else {
        first_named(nodes.drop_first(), name)
    }
}

/// The way from `node` down to the first node under it, in the order of
/// the walk, that carries `name`, as the places of the children to go
/// through. `None` where no node carries the name.
pub open spec fn search_in(node: NodeView, name: Seq<char>) -> Option<Seq<int>>
    decreases node, 0int,
{
    if node.data().name == name {
        Some(Seq::empty())
    } else {
        match node {
            NodeView::GroupNode(g) => search_children(g.children, name, g.children.len() as int),
            _ => None,
        }
    }
}

/// The way to the first node under the first `k` of `children`, in the
/// order of the walk, that carries `name`: the child that was added last
/// is looked into first.
pub open spec fn search_children(children: Seq<NodeView>, name: Seq<char>, k: int) -> Option<Seq<int>>
    decreases children, k,
{
    if 0 < k <= children.len() {
        match search_in(children[k - 1], name) {
            Some(path) => Some(seq![k - 1] + path),
            None => search_children(children, name, k - 1),
        }
    } else {
        None
    }
}

/// The way to the node that a search by `name` finds in the tree under
/// `root`: the first node in the order of the walk that carries the name.
/// Without a name the search finds the root.
pub open spec fn search(root: NodeView, name: Option<Seq<char>>) -> Option<Seq<int>> {
    match name {
        None => Some(Seq::empty()),
        Some(n) => search_in(root, n),
    }
}

/// Whether `path` leads from `node` down to a node of the tree.
pub open spec fn valid_path(node: NodeView, path: Seq<int>) -> bool
    decreases path.len(),
{
    path.len() == 0 || (node is GroupNode && 0 <= path[0] < node.children().len() && valid_path(
        node.children()[path[0]],
        path.drop_first(),
    ))
}

/// The node that `path` leads to from `node`.
pub open spec fn node_at(node: NodeView, path: Seq<int>) -> NodeView
    decreases path.len(),
{
    if path.len() == 0 {
        node
    } else {
        node_at(node.children()[path[0]], path.drop_first())
    }
}

/// The tree under `node` with `new` in place of the node that `path` leads
/// to.
pub open spec fn replace_at(node: NodeView, path: Seq<int>, new: NodeView) -> NodeView
    decreases path.len(),
{
    if path.len() == 0 {
        new
    } else {
        match node {
            NodeView::GroupNode(g) => NodeView::GroupNode(
                GroupNodeView {
                    node: g.node,
                    children: g.children.update(
                        path[0],
                        replace_at(g.children[path[0]], path.drop_first(), new),
                    ),
                },
            ),
            _ => node,
        }
    }
}

/// A group with `child` behind its children; a leaf stays as it is.
pub open spec fn appended(node: NodeView, child: NodeView) -> NodeView {
    match node {
        NodeView::GroupNode(g) => NodeView::GroupNode(
            GroupNodeView { node: g.node, children: g.children.push(child) },
        ),
        _ => node,
    }
}

/// The tree under `root` with `child` as the last child of the group that
/// `path` leads to.
pub open spec fn with_child(root: NodeView, path: Seq<int>, child: NodeView) -> NodeView {
    replace_at(root, path, appended(node_at(root, path), child))
}

/// Why nothing can be added under the node that the search for `name`
/// finds: there is no such node, or it is no group. `None` where a child
/// can be added.
pub open spec fn parent_error(root: NodeView, name: Option<Seq<char>>) -> Option<SceneError> {
    match search(root, name) {
        None => Some(SceneError::NotFound),
        Some(path) => if node_at(root, path) is GroupNode {
            None
        } else {
            Some(SceneError::WrongNodeKind)
        },
    }
}

/// Replacing one leaf of a tree leaves every other leaf where it was: the
/// way to it still leads to it.
pub proof fn lemma_replace_elsewhere(root: NodeView, path: Seq<int>, new: NodeView, other: Seq<int>)
    requires
        valid_path(root, path),
        valid_path(root, other),
        path != other,
        !(node_at(root, path) is GroupNode),
        !(node_at(root, other) is GroupNode),
    ensures
        valid_path(replace_at(root, path, new), other),
        node_at(replace_at(root, path, new), other) == node_at(root, other),
    decreases path.len(),
{
    if path.len() == 0 {
        assert(other.len() == 0);
        assert(path =~= other);
    } else if other.len() == 0 {
    } else {
        let children = root.children();
        if path[0] == other[0] {
            if path.drop_first() == other.drop_first() {
                assert(path =~= seq![path[0]] + path.drop_first());
                assert(other =~= seq![other[0]] + other.drop_first());
            }
            lemma_replace_elsewhere(children[path[0]], path.drop_first(), new, other.drop_first());
        }
    }
}

/// A path into a tree still leads to a group after that group has got
/// another child.
pub proof fn lemma_with_child_keeps_path(root: NodeView, path: Seq<int>, child: NodeView)
    requires
        valid_path(root, path),
        node_at(root, path) is GroupNode,
    ensures
        valid_path(with_child(root, path, child), path),
        node_at(with_child(root, path, child), path) == appended(node_at(root, path), child),
        node_at(with_child(root, path, child), path) is GroupNode,
    decreases path.len(),
{
    if path.len() > 0 {
        lemma_with_child_keeps_path(root.children()[path[0]], path.drop_first(), child);
    }
}

/// The way that the search gives leads to the first node, in the order of
/// the walk, that carries the name; and it gives none exactly where no
/// node carries it.
pub proof fn lemma_search_in(node: NodeView, name: Seq<char>)
    ensures
        match search_in(node, name) {
            Some(path) => valid_path(node, path) && first_named(preorder(node), name) == Some(
                node_at(node, path),
            ) && node_at(node, path).data().name == name,
            None => first_named(preorder(node), name) is None,
        },
    decreases node, 0int,
{
    assert(seq![node].drop_first() =~= Seq::<NodeView>::empty());
    assert(first_named(Seq::<NodeView>::empty(), name) is None);
    match node {
        NodeView::GroupNode(g) => {
            let below = preorder_children(g.children, g.children.len() as int);
            lemma_first_named_add(seq![node], below, name);
            lemma_search_children(g.children, name, g.children.len() as int);
            if node.data().name != name {
                if let Some(path) = search_children(g.children, name, g.children.len() as int) {
                    assert(valid_path(node, path));
                    assert(node_at(node, path) == node_at(g.children[path[0]], path.drop_first()));
                }
            }
        },
        _ => {},
    }
}

/// The way that the search under the first `k` children gives leads
/// through one of them to the first node under them, in the order of the
/// walk, that carries the name.
pub proof fn lemma_search_children(children: Seq<NodeView>, name: Seq<char>, k: int)
    ensures
        match search_children(children, name, k) {
            Some(path) => {
                &&& path.len() > 0
                &&& 0 <= path[0] < children.len()
                &&& valid_path(children[path[0]], path.drop_first())
                &&& first_named(preorder_children(children, k), name) == Some(
                    node_at(children[path[0]], path.drop_first()),
                )
                &&& node_at(children[path[0]], path.drop_first()).data().name == name
            },
            None => first_named(preorder_children(children, k), name) is None,
        },
    decreases children, k,
{
    if 0 < k <= children.len() {
        lemma_first_named_add(preorder(children[k - 1]), preorder_children(children, k - 1), name);
        lemma_search_in(children[k - 1], name);
        match search_in(children[k - 1], name) {
            Some(below) => {
                let path = seq![k - 1] + below;
                assert(path.drop_first() =~= below);
            },
            None => {
                lemma_search_children(children, name, k - 1);
            },
        }
    } else {
        assert(first_named(Seq::<NodeView>::empty(), name) is None);
    }
}

/// What a search finds is a node of the tree, and by a name it is the
/// first node in the order of the walk that carries the name.
pub proof fn lemma_search_finds(root: NodeView, name: Option<Seq<char>>)
    ensures
        search(root, name) matches Some(path) ==> valid_path(root, path) && (name matches Some(n)
            ==> node_at(root, path).data().name == n && first_named(preorder(root), n) == Some(
            node_at(root, path),
        )),
        search(root, name) is None ==> name is Some && first_named(preorder(root), name->0) is None,
{
    if let Some(n) = name {
        lemma_search_in(root, n);
    }
}

/// The render nodes of two walks, one after the other, are those of the
/// first followed by those of the second.
pub proof fn lemma_render_items_add(a: Seq<Visit>, b: Seq<Visit>)
    ensures
        render_items(a + b) == render_items(a) + render_items(b),
    decreases a.len(),
{
    if a.len() == 0 {
        assert(a + b =~= b);
        assert(render_items(a) + render_items(b) =~= render_items(b));
    } else {
        assert((a + b).drop_first() =~= a.drop_first() + b);
        lemma_render_items_add(a.drop_first(), b);
        assert(render_items(a + b) =~= render_items(a) + render_items(b));
    }
}

/// The light nodes of two walks, one after the other, are those of the
/// first followed by those of the second.
pub proof fn lemma_light_items_add(a: Seq<Visit>, b: Seq<Visit>)
    ensures
        light_items(a + b) == light_items(a) + light_items(b),
    decreases a.len(),
{
    if a.len() == 0 {
        assert(a + b =~= b);
        assert(light_items(a) + light_items(b) =~= light_items(b));
    } else {
        assert((a + b).drop_first() =~= a.drop_first() + b);
        lemma_light_items_add(a.drop_first(), b);
        assert(light_items(a + b) =~= light_items(a) + light_items(b));
    }
}

/// Searching two lists, one after the other, finds what the first list
/// gives, and what the second gives where the first gives nothing.
pub proof fn lemma_first_named_add(a: Seq<NodeView>, b: Seq<NodeView>, name: Seq<char>)
    ensures
        first_named(a + b, name) == match first_named(a, name) {
            Some(n) => Some(n),
            None => first_named(b, name),
        },
    decreases a.len(),
{
    if a.len() == 0 {
        assert(a + b =~= b);
    } else {
        assert((a + b).drop_first() =~= a.drop_first() + b);
        lemma_first_named_add(a.drop_first(), b, name);
    }
}

/// A walk stops at the nodes of the tree in their order, whatever the
/// transform it starts from.
pub proof fn lemma_visit_nodes(node: NodeView, parent: Seq<u32>)
    ensures
        visit_nodes(visits(node, parent)) == preorder(node),
    decreases node, 0int,
{
    let world = mat4_product(parent, node.data().matrix);
    match node {
        NodeView::GroupNode(g) => {
            lemma_visit_nodes_children(g.children, world, g.children.len() as int);
            assert(visit_nodes(visits(node, parent)) =~= preorder(node));
        },
        _ => {
            assert(visit_nodes(visits(node, parent)) =~= preorder(node));
        },
    }
}

/// The walks through the first `k` children stop at the nodes under them in
/// their order.
pub proof fn lemma_visit_nodes_children(children: Seq<NodeView>, world: Seq<u32>, k: int)
    ensures
        visit_nodes(visits_children(children, world, k)) == preorder_children(children, k),
    decreases children, k,
{
    if 0 < k <= children.len() {
        lemma_visit_nodes(children[k - 1], world);
        lemma_visit_nodes_children(children, world, k - 1);
        assert(visit_nodes(visits_children(children, world, k)) =~= preorder_children(children, k));
    } else {
        assert(visit_nodes(visits_children(children, world, k)) =~= preorder_children(children, k));
    }
}

/// How many light nodes the tree under `node` holds.
pub open spec fn light_count(node: NodeView) -> nat
    decreases node, 0int,
{
    match node {
        NodeView::GroupNode(g) => light_count_children(g.children, g.children.len() as int),
        NodeView::RenderNode(_) => 0,
        NodeView::LightNode(_) => 1,
    }
}

/// How many light nodes the trees under the first `k` of `children` hold.
pub open spec fn light_count_children(children: Seq<NodeView>, k: int) -> nat
    decreases children, k,
{
    if 0 < k <= children.len() {
        light_count(children[k - 1]) + light_count_children(children, k - 1)
    } else {
        0
    }
}

/// A walk meets as many lights as the tree holds.
pub proof fn lemma_light_items_len(node: NodeView, parent: Seq<u32>)
    ensures
        light_items(visits(node, parent)).len() == light_count(node),
    decreases node, 0int,
{
    let world = mat4_product(parent, node.data().matrix);
    let stop = seq![Visit { node, world }];
    assert(stop.drop_first() =~= Seq::<Visit>::empty());
    assert(light_items(Seq::<Visit>::empty()) =~= Seq::empty());
    match node {
        NodeView::GroupNode(g) => {
            let below = visits_children(g.children, world, g.children.len() as int);
            lemma_light_items_add(stop, below);
            lemma_light_items_children_len(g.children, world, g.children.len() as int);
        },
        _ => {},
    }
}

/// The walks through the first `k` children meet as many lights as the
/// trees under them hold.
pub proof fn lemma_light_items_children_len(children: Seq<NodeView>, world: Seq<u32>, k: int)
    ensures
        light_items(visits_children(children, world, k)).len() == light_count_children(children, k),
    decreases children, k,
{
    if 0 < k <= children.len() {
        lemma_light_items_add(visits(children[k - 1], world), visits_children(children, world, k - 1));
        lemma_light_items_len(children[k - 1], world);
        lemma_light_items_children_len(children, world, k - 1);
    } else {
        assert(light_items(Seq::<Visit>::empty()) =~= Seq::empty());
    }
}

/// How many render nodes the tree under `node` holds.
pub open spec fn render_count(node: NodeView) -> nat
    decreases node, 0int,
{
    match node {
        NodeView::GroupNode(g) => render_count_children(g.children, g.children.len() as int),
        NodeView::RenderNode(_) => 1,
        NodeView::LightNode(_) => 0,
    }
}

/// How many render nodes the trees under the first `k` of `children` hold.
pub open spec fn render_count_children(children: Seq<NodeView>, k: int) -> nat
    decreases children, k,
{
    if 0 < k <= children.len() {
        render_count(children[k - 1]) + render_count_children(children, k - 1)
    } else {
        0
    }
}

/// A walk meets as many render nodes as the tree holds.
pub proof fn lemma_render_items_len(node: NodeView, parent: Seq<u32>)
    ensures
        render_items(visits(node, parent)).len() == render_count(node),
    decreases node, 0int,
{
    let world = mat4_product(parent, node.data().matrix);
    let stop = seq![Visit { node, world }];
    assert(stop.drop_first() =~= Seq::<Visit>::empty());
    assert(render_items(Seq::<Visit>::empty()) =~= Seq::empty());
    match node {
        NodeView::GroupNode(g) => {
            let below = visits_children(g.children, world, g.children.len() as int);
            lemma_render_items_add(stop, below);
            lemma_render_items_children_len(g.children, world, g.children.len() as int);
        },
        _ => {},
    }
}

/// The walks through the first `k` children meet as many render nodes as
/// the trees under them hold.
pub proof fn lemma_render_items_children_len(children: Seq<NodeView>, world: Seq<u32>, k: int)
    ensures
        render_items(visits_children(children, world, k)).len() == render_count_children(children, k),
    decreases children, k,
{
    if 0 < k <= children.len() {
        lemma_render_items_add(visits(children[k - 1], world), visits_children(children, world, k - 1));
        lemma_render_items_len(children[k - 1], world);
        lemma_render_items_children_len(children, world, k - 1);
    } else {
        assert(render_items(Seq::<Visit>::empty()) =~= Seq::empty());
    }
}

/// The lights under the first `k` children do not depend on the children
/// behind them.
pub proof fn lemma_light_count_children_prefix(a: Seq<NodeView>, b: Seq<NodeView>, k: int)
    requires
        0 <= k <= a.len(),
        k <= b.len(),
        forall|j: int| 0 <= j < k ==> a[j] == b[j],
    ensures
        light_count_children(a, k) == light_count_children(b, k),
    decreases k,
{
    if k > 0 {
        lemma_light_count_children_prefix(a, b, k - 1);
    }
}

/// Where one child is replaced, the count of lights changes by as much as
/// the count under that child.
pub proof fn lemma_light_count_children_update(children: Seq<NodeView>, i: int, new: NodeView, k: int)
    requires
        0 <= i < children.len(),
        0 <= k <= children.len(),
    ensures
        light_count_children(children.update(i, new), k) == if i < k {
            light_count_children(children, k) - light_count(children[i]) + light_count(new)
        } else {
            light_count_children(children, k) as int
        },
    decreases k,
{
    if k > 0 {
        lemma_light_count_children_update(children, i, new, k - 1);
    }
}

/// Where a node of the tree is replaced, the count of lights changes by
/// as much as the count under that node.
pub proof fn lemma_light_count_replace(root: NodeView, path: Seq<int>, new: NodeView)
    requires
        valid_path(root, path),
    ensures
        light_count(replace_at(root, path, new)) == light_count(root) - light_count(node_at(root, path))
            + light_count(new),
    decreases path.len(),
{
    if path.len() > 0 {
        let children = root.children();
        let i = path[0];
        let below = replace_at(children[i], path.drop_first(), new);
        lemma_light_count_replace(children[i], path.drop_first(), new);
        lemma_light_count_children_update(children, i, below, children.len() as int);
    }
}

/// A tree that gets another child holds the lights that it held and those
/// of the child.
pub proof fn lemma_light_count_with_child(root: NodeView, path: Seq<int>, child: NodeView)
    requires
        valid_path(root, path),
        node_at(root, path) is GroupNode,
    ensures
        light_count(with_child(root, path, child)) == light_count(root) + light_count(child),
{
    let group = node_at(root, path);
    let children = group.children();
    lemma_light_count_children_prefix(children.push(child), children, children.len() as int);
    lemma_light_count_replace(root, path, appended(group, child));
}

/// The render nodes under the first `k` children do not depend on the
/// children behind them.
pub proof fn lemma_render_count_children_prefix(a: Seq<NodeView>, b: Seq<NodeView>, k: int)
    requires
        0 <= k <= a.len(),
        k <= b.len(),
        forall|j: int| 0 <= j < k ==> a[j] == b[j],
    ensures
        render_count_children(a, k) == render_count_children(b, k),
    decreases k,
{
    if k > 0 {
        lemma_render_count_children_prefix(a, b, k - 1);
    }
}

/// Where one child is replaced, the count of render nodes changes by as
/// much as the count under that child.
pub proof fn lemma_render_count_children_update(children: Seq<NodeView>, i: int, new: NodeView, k: int)
    requires
        0 <= i < children.len(),
        0 <= k <= children.len(),
    ensures
        render_count_children(children.update(i, new), k) == if i < k {
            render_count_children(children, k) - render_count(children[i]) + render_count(new)
        } else {
            render_count_children(children, k) as int
        },
    decreases k,
{
    if k > 0 {
        lemma_render_count_children_update(children, i, new, k - 1);
    }
}

/// Where a node of the tree is replaced, the count of render nodes changes
/// by as much as the count under that node.
pub proof fn lemma_render_count_replace(root: NodeView, path: Seq<int>, new: NodeView)
    requires
        valid_path(root, path),
    ensures
        render_count(replace_at(root, path, new)) == render_count(root) - render_count(node_at(root, path))
            + render_count(new),
    decreases path.len(),
{
    if path.len() > 0 {
        let children = root.children();
        let i = path[0];
        let below = replace_at(children[i], path.drop_first(), new);
        lemma_render_count_replace(children[i], path.drop_first(), new);
        lemma_render_count_children_update(children, i, below, children.len() as int);
    }
}

/// A tree that gets another child holds the render nodes that it held and
/// those of the child.
pub proof fn lemma_render_count_with_child(root: NodeView, path: Seq<int>, child: NodeView)
    requires
        valid_path(root, path),
        node_at(root, path) is GroupNode,
    ensures
        render_count(with_child(root, path, child)) == render_count(root) + render_count(child),
{
    let group = node_at(root, path);
    let children = group.children();
    lemma_render_count_children_prefix(children.push(child), children, children.len() as int);
    lemma_render_count_replace(root, path, appended(group, child));
}

} // verus!
