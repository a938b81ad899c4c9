//! Walking through a scene: every node, every mesh, every light.

use vstd::prelude::*;
use crate::math::Mat4;
use crate::scenegraph::{LightNode, LightNodeView, Node, RenderNode, RenderNodeView, SceneGraph};
use crate::traversal::{
    lemma_light_items_add, lemma_render_items_add, light_items, render_items, visits,
    visits_children, Visit,
};

verus! {

/// What a stack of nodes, each with the world transform of its parent, has
/// yet to walk through: the tree under its top entry first.
pub open spec fn stack_visits(stack: Seq<(&Node, Mat4)>) -> Seq<Visit>
    decreases stack.len(),
{
    if stack.len() == 0 {
        Seq::empty()
    } else {
        visits(stack.last().0@, stack.last().1@) + stack_visits(stack.drop_last())
    }
}

proof fn lemma_stack_visits_push(stack: Seq<(&Node, Mat4)>, entry: (&Node, Mat4))
    ensures
        stack_visits(stack.push(entry)) == visits(entry.0@, entry.1@) + stack_visits(stack),
{
    assert(stack.push(entry).drop_last() =~= stack);
}

/// A walk through a tree that keeps the nodes it has yet to go into on a
/// stack.
pub struct Walk<'a> {
    stack: Vec<(&'a Node, Mat4)>,
}

impl<'a> Walk<'a> {
    /// The stops that the walk has yet to make, in order.
    pub closed spec fn pending(&self) -> Seq<Visit> {
        stack_visits(self.stack@)
    }

    /// A walk through the tree under `root`, where `start` is taken as the
    /// world transform above the root.
    pub fn new(root: &'a Node, start: Mat4) -> (walk: Walk<'a>)
        ensures
            walk.pending() == visits(root@, start@),
    {
        let mut stack: Vec<(&'a Node, Mat4)> = Vec::new();
        stack.push((root, start));
        proof {
            lemma_stack_visits_push(Seq::empty(), (root, start));
            assert(stack@ =~= Seq::<(&Node, Mat4)>::empty().push((root, start)));
            assert(visits(root@, start@) + Seq::<Visit>::empty() =~= visits(root@, start@));
        }
        Walk { stack }
    }

    /// Makes the next stop: gives the node and its world transform, and puts
    /// the children of a group on the stack in the order in which they were
    /// added, so that the last of them is walked first.
    pub fn next(&mut self) -> (stop: Option<(&'a Node, Mat4)>)
        ensures
            match stop {
                Some((node, world)) => old(self).pending() == seq![Visit { node: node@, world: world@ }]
                    + final(self).pending(),
                None => old(self).pending().len() == 0 && final(self).pending().len() == 0,
            },
    {
        let ghost before = self.stack@;
        match self.stack.pop() {
            None => None,
            Some((node, parent)) => {
                let ghost rest = self.stack@;
                assert(before.drop_last() =~= rest);
                let world = parent.mul_mat4(&node.data().matrix);
                match node {
                    Node::GroupNode(group) => {
                        let mut i: usize = 0;
                        while i < group.children.len()
                            invariant
                                i <= group.children.len(),
                                stack_visits(self.stack@) == visits_children(
                                    group@.children,
                                    world@,
                                    i as int,
                                ) + stack_visits(rest),
                            decreases group.children.len() - i,
                        {
                            proof {
                                lemma_stack_visits_push(self.stack@, (&group.children[i as int], world));
                                assert(group@.children[i as int] == group.children[i as int]@);
                                assert(visits_children(group@.children, world@, i + 1) + stack_visits(rest)
                                    =~= visits(group@.children[i as int], world@) + (visits_children(
                                    group@.children,
                                    world@,
                                    i as int,
                                ) + stack_visits(rest)));
                            }
                            self.stack.push((&group.children[i], world));
                            i += 1;
                        }
                        assert(old(self).pending() =~= seq![Visit { node: node@, world: world@ }]
                            + final(self).pending());
                    },
                    _ => {
                        assert(old(self).pending() =~= seq![Visit { node: node@, world: world@ }]
                            + final(self).pending());
                    },
                }
                Some((node, world))
            },
        }
    }
}

/// Goes through the render nodes of a scene, each with its world transform.
pub struct SceneGraphRenderNodeIterator<'a> {
    walk: Walk<'a>,
}

impl<'a> SceneGraphRenderNodeIterator<'a> {
    /// The render nodes that are yet to come, each with its world transform.
    pub closed spec fn remaining(&self) -> Seq<(RenderNodeView, Seq<u32>)> {
        render_items(self.walk.pending())
    }

    /// An iterator that has yet to give every render node of the scene, in
    /// the order of the walk from the root under the identity transform.
    pub fn new(scene_graph: &'a SceneGraph) -> (iterator: Self)
        ensures
            iterator.remaining() == render_items(visits(scene_graph@.root, Mat4::identity_numbers())),
    {
        SceneGraphRenderNodeIterator { walk: Walk::new(&scene_graph.root, Mat4::identity()) }
    }

    /// Gives the next render node with its world transform, or `None` when
    /// there is none left; after that it gives `None` again.
    pub fn next(&mut self) -> (item: Option<(&'a RenderNode, Mat4)>)
        ensures
            match item {
                Some((node, world)) => old(self).remaining() == seq![(node@, world@)] + final(self).remaining(),
                None => old(self).remaining().len() == 0 && final(self).remaining().len() == 0,
            },
    {
        loop
            invariant
                self.remaining() == old(self).remaining(),
            decreases self.walk.pending().len(),
        {
            let ghost before = self.walk.pending();
            match self.walk.next() {
                None => {
                    return None;
                },
                Some((node, world)) => {
                    proof {
                        let stop = seq![Visit { node: node@, world: world@ }];
                        lemma_render_items_add(stop, self.walk.pending());
                        assert(stop.drop_first() =~= Seq::<Visit>::empty());
                        assert(render_items(Seq::<Visit>::empty()) =~= Seq::empty());
                        assert(before == stop + self.walk.pending());
                    }
                    match node {
                        Node::RenderNode(render) => {
                            assert(old(self).remaining() =~= seq![(render@, world@)] + self.remaining());
                            return Some((render, world));
                        },
                        _ => {
                            assert(old(self).remaining() =~= self.remaining());
                        },
                    }
                },
            }
        }
    }
}

/// Goes through the light nodes of a scene, each with its world transform.
pub struct SceneGraphLightNodeIterator<'a> {
    walk: Walk<'a>,
}

impl<'a> SceneGraphLightNodeIterator<'a> {
    /// The light nodes that are yet to come, each with its world transform.
    pub closed spec fn remaining(&self) -> Seq<(LightNodeView, Seq<u32>)> {
        light_items(self.walk.pending())
    }

    /// An iterator that has yet to give every light node of the scene, in
    /// the order of the walk from the root under the identity transform.
    pub fn new(scene_graph: &'a SceneGraph) -> (iterator: Self)
        ensures
            iterator.remaining() == light_items(visits(scene_graph@.root, Mat4::identity_numbers())),
    {
        SceneGraphLightNodeIterator { walk: Walk::new(&scene_graph.root, Mat4::identity()) }
    }

    /// Gives the next light node with its world transform, or `None` when
    /// there is none left; after that it gives `None` again.
    pub fn next(&mut self) -> (item: Option<(&'a LightNode, Mat4)>)
        ensures
            match item {
                Some((node, world)) => old(self).remaining() == seq![(node@, world@)] + final(self).remaining(),
                None => old(self).remaining().len() == 0 && final(self).remaining().len() == 0,
            },
    {
        loop
            invariant
                self.remaining() == old(self).remaining(),
            decreases self.walk.pending().len(),
        {
            let ghost before = self.walk.pending();
            match self.walk.next() {
                None => {
                    return None;
                },
                Some((node, world)) => {
                    proof {
                        let stop = seq![Visit { node: node@, world: world@ }];
                        lemma_light_items_add(stop, self.walk.pending());
                        assert(stop.drop_first() =~= Seq::<Visit>::empty());
                        assert(light_items(Seq::<Visit>::empty()) =~= Seq::empty());
                        assert(before == stop + self.walk.pending());
                    }
                    match node {
                        Node::LightNode(light) => {
                            assert(old(self).remaining() =~= seq![(light@, world@)] + self.remaining());
                            return Some((light, world));
                        },
                        _ => {
                            assert(old(self).remaining() =~= self.remaining());
                        },
                    }
                },
            }
        }
    }
}

} // verus!
