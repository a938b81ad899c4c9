//! Adding meshes, models and lights to a scene.

use vstd::prelude::*;
use crate::device::{Device, DeviceView};
use crate::error::SceneError;
use crate::gpu::{BindGroup, BindGroupLayout};
use crate::light::{Light, LightUniformView, ShadowMap};
use crate::lighting::uniforms_match;
use crate::math::Mat4;
use crate::model::{vertex_views, Model, Vertex};
use crate::scenegraph::{
    buffer_label, name_view, places, LightNode, LightNodeView, Node, NodeData, NodeDataView, NodeView,
    RenderNode, RenderNodeView, SceneGraph, SceneGraphView,
};
use crate::traversal::{
    lemma_light_count_with_child, lemma_light_items_len, lemma_render_count_with_child,
    lemma_render_items_len, lemma_with_child_keeps_path, light_count, node_at, parent_error,
    render_count, search, valid_path, with_child,
};

verus! {

/// Why a node that takes `handles` handles of the device cannot be added
/// under the node found for `parent`: first for the reason that the parent
/// gives, then because the device has too few handles left. `None` where
/// it can.
pub open spec fn addition_error(root: NodeView, parent: Option<Seq<char>>, device: DeviceView, handles: int)
    -> Option<SceneError> {
    match parent_error(root, parent) {
        Some(e) => Some(e),
        None => if device.remaining() < handles {
            Some(SceneError::ResourceExhaustion)
        } else {
            None
        },
    }
}

/// The name of the render node for the mesh `mesh` of the model `name`.
pub open spec fn mesh_node_name(name: Seq<char>, mesh: Seq<char>) -> Seq<char> {
    name + "-"@ + mesh
}

/// Whether each mesh of the model names a material that the model holds.
pub open spec fn meshes_have_materials(model: Model) -> bool {
    forall|i: int| 0 <= i < model.meshes.len() ==> (#[trigger] model.meshes[i]).material < model.materials.len()
}

/// How many handles the render nodes for the first `k` meshes of the model
/// take: for each mesh those of the bind group of its material and three
/// buffers.
pub open spec fn model_handles(model: Model, k: int) -> int
    decreases k,
{
    if k <= 0 {
        0
    } else {
        model_handles(model, k - 1) + model.materials[model.meshes[k - 1].material as int].handles_needed() + 3
    }
}

/// The tree and the device after the render nodes for the first `k`
/// meshes of the model have been added, one after the other, under the
/// group that `path` leads to: for each mesh the device is asked for the
/// bind group of its material, then for the buffers of the node.
pub open spec fn after_meshes(
    root: NodeView,
    device: DeviceView,
    path: Seq<int>,
    name: Seq<char>,
    model: Model,
    layout: BindGroupLayout,
    matrix: Seq<u32>,
    k: int,
) -> (NodeView, DeviceView)
    decreases k,
{
    if k <= 0 {
        (root, device)
    } else {
        let before = after_meshes(root, device, path, name, model, layout, matrix, k - 1);
        let mesh = model.meshes[k - 1];
        let material = model.materials[mesh.material as int];
        let bind_group = match material.diffuse_texture {
            Some(_) => Some(BindGroup { id: (before.1.next_id + 1) as u64 }),
            None => None,
        };
        let with_material = material.bind_group_commands(before.1, layout);
        let node = RenderNodeView::fresh_with_matrix(
            with_material,
            mesh_node_name(name, mesh.name@),
            vertex_views(mesh.vertices@),
            mesh.indices@,
            bind_group,
            matrix,
        );
        (
            with_child(before.0, path, NodeView::RenderNode(node)),
            node.creation_with_matrix(with_material, mesh.indices@),
        )
    }
}

/// Why the render nodes of a model cannot be added: first for the reason
/// that the parent gives, then because a mesh names a material that the
/// model lacks, then because the device has too few handles left. `None`
/// where they can.
pub open spec fn model_error(root: NodeView, parent: Option<Seq<char>>, device: DeviceView, model: Model)
    -> Option<SceneError> {
    match parent_error(root, parent) {
        Some(e) => Some(e),
        None => if !meshes_have_materials(model) {
            Some(SceneError::MissingMeshData)
        } else if device.remaining() < model_handles(model, model.meshes.len() as int) {
            Some(SceneError::ResourceExhaustion)
        } else {
            None
        },
    }
}

proof fn lemma_model_handles_grow(model: Model, i: int, k: int)
    requires
        0 <= i <= k <= model.meshes.len(),
    ensures
        0 <= model_handles(model, i) <= model_handles(model, k),
    decreases k,
{
    if i < k {
        lemma_model_handles_grow(model, i, k - 1);
    } else {
        if i > 0 {
            lemma_model_handles_grow(model, i - 1, i - 1);
        }
    }
}

impl SceneGraph {
    /// Makes a render node named `name` with the transform `matrix` and
    /// adds it under the node found for `parent`. The device is asked for
    /// the buffers of the node. Fails, changes nothing and asks for
    /// nothing, where `parent` names no node or no group, or else where
    /// the device has fewer than three handles left.
    pub fn add_render_node(
        &mut self,
        parent: Option<&str>,
        name: String,
        device: &mut Device,
        vertices: &[Vertex],
        indices: &[u32],
        matrix: Mat4,
    ) -> (added: Result<(), SceneError>)
        ensures
            match added {
                Ok(()) => {
                    let node = RenderNodeView::fresh_with_matrix(
                        old(device)@,
                        name@,
                        vertex_views(vertices@),
                        indices@,
                        None,
                        matrix@,
                    );
                    &&& addition_error(old(self)@.root, name_view(parent), old(device)@, 3) is None
                    &&& final(self)@ == (SceneGraphView {
                        root: with_child(
                            old(self)@.root,
                            search(old(self)@.root, name_view(parent))->0,
                            NodeView::RenderNode(node),
                        ),
                        ..old(self)@
                    })
                    &&& final(device)@ == node.creation_with_matrix(old(device)@, indices@)
                    &&& final(self)@.render_nodes().len() == old(self)@.render_nodes().len() + 1
                    &&& final(self)@.lights().len() == old(self)@.lights().len()
                    &&& old(self)@.lights_synced() ==> final(self)@.lights_synced()
                },
                Err(e) => addition_error(old(self)@.root, name_view(parent), old(device)@, 3) == Some(e)
                    && final(self)@ == old(self)@ && final(device)@ == old(device)@,
            },
    {
        let path = match self.parent_path(parent) {
            Ok(path) => path,
            Err(e) => {
                return Err(e);
            },
        };
        if device.remaining() < 3 {
            return Err(SceneError::ResourceExhaustion);
        }
        let render_node = RenderNode::new_with_matrix(name, device, vertices, indices, None, matrix);
        proof {
            let child = NodeView::RenderNode(render_node@);
            let grown = with_child(self@.root, places(path@), child);
            lemma_light_count_with_child(self@.root, places(path@), child);
            lemma_render_count_with_child(self@.root, places(path@), child);
            lemma_light_items_len(self@.root, Mat4::identity_numbers());
            lemma_light_items_len(grown, Mat4::identity_numbers());
            lemma_render_items_len(self@.root, Mat4::identity_numbers());
            lemma_render_items_len(grown, Mat4::identity_numbers());
        }
        self.attach(&path, Node::RenderNode(render_node));
        Ok(())
    }

    /// Adds one render node for each mesh of `model`, in their order, under
    /// the node found for `parent`. The node for a mesh is named after the
    /// model and the mesh, with a hyphen between them; it has the
    /// transform `matrix` and the bind group of the material of the mesh.
    /// A model without meshes changes nothing. Else fails, changes nothing
    /// and asks the device for nothing, where `parent` names no node or no
    /// group, or else where a mesh names a material that the model lacks,
    /// or else where the device has too few handles left.
    pub fn add_model_node(
        &mut self,
        parent: Option<&str>,
        name: String,
        device: &mut Device,
        model: &Model,
        bind_group_layout: &BindGroupLayout,
        matrix: Mat4,
    ) -> (added: Result<(), SceneError>)
        ensures
            match added {
                Ok(()) => if model.meshes.len() == 0 {
                    final(self)@ == old(self)@ && final(device)@ == old(device)@
                } else {
                    &&& model_error(old(self)@.root, name_view(parent), old(device)@, *model) is None
                    &&& (final(self)@.root, final(device)@) == after_meshes(
                        old(self)@.root,
                        old(device)@,
                        search(old(self)@.root, name_view(parent))->0,
                        name@,
                        *model,
                        *bind_group_layout,
                        matrix@,
                        model.meshes.len() as int,
                    )
                    &&& final(self)@ == (SceneGraphView { root: final(self)@.root, ..old(self)@ })
                    &&& final(self)@.render_nodes().len() == old(self)@.render_nodes().len() + model.meshes.len()
                    &&& final(self)@.lights().len() == old(self)@.lights().len()
                    &&& old(self)@.lights_synced() ==> final(self)@.lights_synced()
                },
                Err(e) => model.meshes.len() > 0 && model_error(
                    old(self)@.root,
                    name_view(parent),
                    old(device)@,
                    *model,
                ) == Some(e) && final(self)@ == old(self)@ && final(device)@ == old(device)@,
            },
    {
        let count = model.meshes.len();
        if count == 0 {
            return Ok(());
        }
        let path = match self.parent_path(parent) {
            Ok(path) => path,
            Err(e) => {
                return Err(e);
            },
        };
        let mut i: usize = 0;
        while i < count
            invariant
                i <= count,
                count == model.meshes.len(),
                count > 0,
                parent_error(self@.root, name_view(parent)) is None,
                self@ == old(self)@,
                device@ == old(device)@,
                forall|j: int| 0 <= j < i ==> (#[trigger] model.meshes[j]).material < model.materials.len(),
            decreases count - i,
        {
            if model.meshes[i].material >= model.materials.len() {
                assert(!(model.meshes[i as int].material < model.materials.len()));
                return Err(SceneError::MissingMeshData);
            }
            i += 1;
        }
        assert(meshes_have_materials(*model));
        let remaining = device.remaining();
        let mut needed: u64 = 0;
        i = 0;
        while i < count
            invariant
                i <= count,
                count == model.meshes.len(),
                meshes_have_materials(*model),
                needed == model_handles(*model, i as int),
                needed <= remaining,
                remaining == device@.remaining(),
                count > 0,
                parent_error(self@.root, name_view(parent)) is None,
                self@ == old(self)@,
                device@ == old(device)@,
            decreases count - i,
        {
            let material = &model.materials[model.meshes[i].material];
            let handles: u64 = if material.diffuse_texture.is_some() {
                5
            } else {
                4
            };
            if handles > remaining - needed {
                proof {
                    lemma_model_handles_grow(*model, i + 1, count as int);
                }
                return Err(SceneError::ResourceExhaustion);
            }
            needed = needed + handles;
            i += 1;
        }
        let ghost root = self@.root;
        let ghost start = device@;
        let ghost way = places(path@);
        i = 0;
        while i < count
            invariant
                i <= count,
                count == model.meshes.len(),
                meshes_have_materials(*model),
                model_handles(*model, count as int) <= start.remaining(),
                device@.next_id == start.next_id + model_handles(*model, i as int),
                (self@.root, device@) == after_meshes(
                    root,
                    start,
                    way,
                    name@,
                    *model,
                    *bind_group_layout,
                    matrix@,
                    i as int,
                ),
                self@ == (SceneGraphView { root: self@.root, ..old(self)@ }),
                way == places(path@),
                valid_path(self@.root, way),
                node_at(self@.root, way) is GroupNode,
                light_count(self@.root) == light_count(root),
                render_count(self@.root) == render_count(root) + i,
            decreases count - i,
        {
            proof {
                lemma_model_handles_grow(*model, i + 1, count as int);
                lemma_model_handles_grow(*model, i as int, i as int);
            }
            let mesh = &model.meshes[i];
            let material = &model.materials[mesh.material];
            let bind_group = match material.create_bind_group(device, bind_group_layout) {
                Ok(bind_group) => bind_group,
                Err(_) => None,
            };
            let mut node_name = buffer_label(&name, "-");
            node_name.append(mesh.name.as_str());
            let render_node = RenderNode::new_with_matrix(
                node_name,
                device,
                mesh.vertices.as_slice(),
                mesh.indices.as_slice(),
                bind_group,
                matrix,
            );
            proof {
                lemma_light_count_with_child(self@.root, way, NodeView::RenderNode(render_node@));
                lemma_render_count_with_child(self@.root, way, NodeView::RenderNode(render_node@));
                lemma_with_child_keeps_path(self@.root, way, NodeView::RenderNode(render_node@));
            }
            self.attach(&path, Node::RenderNode(render_node));
            i += 1;
        }
        proof {
            lemma_light_items_len(root, Mat4::identity_numbers());
            lemma_light_items_len(self@.root, Mat4::identity_numbers());
            lemma_render_items_len(root, Mat4::identity_numbers());
            lemma_render_items_len(self@.root, Mat4::identity_numbers());
        }
        Ok(())
    }

    /// Adds a light node named `name` under the node found for `parent`,
    /// and makes the bind group for the lights anew. Fails, changes
    /// nothing and asks the device for nothing, where `parent` names no
    /// node or no group, or else where the scene holds as many lights as
    /// the shadow map has layers, or else where the device has fewer than
    /// three handles left.
    pub fn add_light_node(&mut self, parent: Option<&str>, name: String, device: &mut Device, light: Light) -> (added:
        Result<(), SceneError>)
        ensures
            match added {
                Ok(()) => {
                    let with_light = SceneGraphView {
                        root: with_child(
                            old(self)@.root,
                            search(old(self)@.root, name_view(parent))->0,
                            NodeView::LightNode(
                                LightNodeView {
                                    node: NodeDataView { name: name@, matrix: Mat4::identity_numbers() },
                                    light: light@,
                                },
                            ),
                        ),
                        ..old(self)@
                    };
                    &&& light_addition_error(old(self)@, name_view(parent), old(device)@) is None
                    &&& with_light.lights().len() == old(self)@.lights().len() + 1
                    &&& with_light.render_nodes().len() == old(self)@.render_nodes().len()
                    &&& final(self)@ == with_light.after_light_update(old(device)@)
                    &&& final(self)@.lights_synced()
                    &&& exists|uniforms: Seq<LightUniformView>|
                        uniforms_match(uniforms, with_light.lights()) && final(device)@
                            == with_light.light_update_commands(old(device)@, uniforms)
                },
                Err(e) => {
                    &&& light_addition_error(old(self)@, name_view(parent), old(device)@) == Some(e)
                    &&& final(self)@ == old(self)@
                    &&& final(device)@ == old(device)@
                },
            },
    {
        let path = match self.parent_path(parent) {
            Ok(path) => path,
            Err(e) => {
                return Err(e);
            },
        };
        if self.light_count() >= ShadowMap::MAX_LIGHTS as usize {
            return Err(SceneError::CapacityExceeded);
        }
        if device.remaining() < 3 {
            return Err(SceneError::ResourceExhaustion);
        }
        let light_node = LightNode { node: NodeData::new(name), light };
        proof {
            let child = NodeView::LightNode(light_node@);
            let grown = with_child(self@.root, places(path@), child);
            lemma_light_count_with_child(self@.root, places(path@), child);
            lemma_render_count_with_child(self@.root, places(path@), child);
            lemma_light_items_len(self@.root, Mat4::identity_numbers());
            lemma_light_items_len(grown, Mat4::identity_numbers());
            lemma_render_items_len(self@.root, Mat4::identity_numbers());
            lemma_render_items_len(grown, Mat4::identity_numbers());
        }
        self.attach(&path, Node::LightNode(light_node));
        let updated = self.update_light_bind_group(device);
        assert(updated is Ok);
        Ok(())
    }
}

/// Why a light cannot be added under the node found for `parent`: first
/// for the reason that the parent gives, then because the scene holds as
/// many lights as the shadow map has layers, then because the device has
/// fewer than the three handles left that the bind group for the lights
/// takes. `None` where it can.
pub open spec fn light_addition_error(scene: SceneGraphView, parent: Option<Seq<char>>, device: DeviceView)
    -> Option<SceneError> {
    match parent_error(scene.root, parent) {
        Some(e) => Some(e),
        None => if scene.lights().len() >= ShadowMap::MAX_LIGHTS {
            Some(SceneError::CapacityExceeded)
        } else if device.remaining() < 3 {
            Some(SceneError::ResourceExhaustion)
        } else {
            None
        },
    }
}

} // verus!
