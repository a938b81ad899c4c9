//! Moving the light that stands for the sun, and the mesh that shows it.

use vstd::prelude::*;
use crate::device::{Device, DeviceView};
use crate::error::SceneError;
use crate::gpu::Buffer;
use crate::light::{LightUniformView, LightView, ShadowMap};
use crate::lighting::uniforms_match;
use crate::math::{number, Mat4, Vec3};
use crate::scenegraph::{
    node_at_mut, node_ref_at, places, LightNodeView, Node, NodeView, RenderNodeView, SceneGraph,
    SceneGraphView,
};
use crate::traversal::{
    lemma_light_count_replace, lemma_light_items_len, lemma_replace_elsewhere, node_at, replace_at,
    search,
};

verus! {

/// The light node with its light moved to `x` along the first axis and to
/// `z` along the third; a node of another kind stays as it is.
pub open spec fn light_moved(node: NodeView, x: u32, z: u32) -> NodeView {
    match node {
        NodeView::LightNode(l) => NodeView::LightNode(
            LightNodeView {
                node: l.node,
                light: LightView { pos: seq![number(x), l.light.pos[1], number(z)], ..l.light },
            },
        ),
        _ => node,
    }
}

/// Where the light named `light` stands after it has been moved to `x`
/// and `z`.
pub open spec fn sun_position(scene: SceneGraphView, x: u32, z: u32) -> Seq<u32> {
    light_moved(node_at(scene.root, search(scene.root, Some("light"@))->0), x, z)->LightNode_0.light.pos
}

/// The scene with the light named `light` moved to `x` and `z`.
pub open spec fn with_sun_at(scene: SceneGraphView, x: u32, z: u32) -> SceneGraphView {
    let path = search(scene.root, Some("light"@))->0;
    SceneGraphView { root: replace_at(scene.root, path, light_moved(node_at(scene.root, path), x, z)), ..scene }
}

/// The render node that shows the sun, if the scene has one: the node
/// that the search finds under the name `light_model-light`, where it is a
/// render node.
pub open spec fn sun_model(scene: SceneGraphView) -> Option<RenderNodeView> {
    match search(scene.root, Some("light_model-light"@)) {
        None => None,
        Some(path) => match node_at(scene.root, path) {
            NodeView::RenderNode(r) => Some(r),
            _ => None,
        },
    }
}

/// Why the sun cannot be moved: no node is named `light`, or the node
/// found under that name is no light; or else, where the scene has a
/// render node that shows the sun, the scene holds more lights than the
/// shadow map has layers, or else the device has fewer than the four
/// handles left that the buffer of that node and the bind group for the
/// lights take. `None` where it can.
pub open spec fn sun_error(scene: SceneGraphView, device: DeviceView) -> Option<SceneError> {
    match search(scene.root, Some("light"@)) {
        None => Some(SceneError::NotFound),
        Some(path) => if !(node_at(scene.root, path) is LightNode) {
            Some(SceneError::WrongNodeKind)
        } else if sun_model(scene) is None {
            None
        } else if scene.lights().len() > ShadowMap::MAX_LIGHTS {
            Some(SceneError::CapacityExceeded)
        } else if device.remaining() < 4 {
            Some(SceneError::ResourceExhaustion)
        } else {
            None
        },
    }
}

/// The render node that shows the sun, moved to `position`, with the
/// vertex buffer that the device makes for it from the state `device` on.
pub open spec fn sun_model_moved(scene: SceneGraphView, position: Seq<u32>, device: DeviceView) -> RenderNodeView {
    sun_model(scene)->0.with_matrix(Mat4::translation_numbers(position), Buffer { id: device.next_id })
}

/// The scene with the light named `light` moved to `x` and `z`, and with
/// the render node that shows the sun moved to where the light then
/// stands.
pub open spec fn with_sun_shown(scene: SceneGraphView, x: u32, z: u32, device: DeviceView) -> SceneGraphView {
    let lit = with_sun_at(scene, x, z);
    let path = search(scene.root, Some("light_model-light"@))->0;
    SceneGraphView {
        root: replace_at(
            lit.root,
            path,
            NodeView::RenderNode(sun_model_moved(scene, sun_position(scene, x, z), device)),
        ),
        ..lit
    }
}

/// Moves the light named `light` to `x` along the first axis and to `z`
/// along the third. Where the scene has a render node named
/// `light_model-light`, that node is moved to where the light now stands
/// and the bind group for the lights is made anew; where it has none, or
/// where the node of that name is no render node, nothing else is done.
///
/// Fails, and changes nothing, where no node is named `light` or the node
/// of that name is no light; and, where there is a render node to move,
/// where the scene holds too many lights or the device has fewer than four
/// handles left.
pub fn rotate_sun(device: &mut Device, scene_graph: &mut SceneGraph, x: u32, z: u32) -> (moved: Result<
    (),
    SceneError,
>)
    ensures
        match sun_error(old(scene_graph)@, old(device)@) {
            Some(e) => {
                &&& moved == Err::<(), SceneError>(e)
                &&& final(scene_graph)@ == old(scene_graph)@
                &&& final(device)@ == old(device)@
            },
            None => {
                &&& moved is Ok
                &&& match sun_model(old(scene_graph)@) {
                    None => {
                        &&& final(scene_graph)@ == with_sun_at(old(scene_graph)@, x, z)
                        &&& final(device)@ == old(device)@
                    },
                    Some(model) => {
                        let shown = with_sun_shown(old(scene_graph)@, x, z, old(device)@);
                        let retransformed = sun_model_moved(
                            old(scene_graph)@,
                            sun_position(old(scene_graph)@, x, z),
                            old(device)@,
                        ).retransformation(old(device)@, model.vertex_buffer);
                        &&& final(scene_graph)@ == shown.after_light_update(retransformed)
                        &&& exists|uniforms: Seq<LightUniformView>|
                            uniforms_match(uniforms, shown.lights()) && final(device)@
                                == shown.light_update_commands(retransformed, uniforms)
                    },
                }
            },
        },
{
    let light_path = match scene_graph.search_path(Some("light")) {
        Some(path) => path,
        None => {
            return Err(SceneError::NotFound);
        },
    };
    assert(places(light_path@).skip(0) =~= places(light_path@));
    let y = match node_ref_at(&scene_graph.root, &light_path, 0) {
        Node::LightNode(light_node) => light_node.light.pos.y,
        _ => {
            return Err(SceneError::WrongNodeKind);
        },
    };
    let pos = Vec3 { x, y, z };
    let model_path: Option<Vec<usize>> = match scene_graph.search_path(Some("light_model-light")) {
        Some(path) => {
            assert(places(path@).skip(0) =~= places(path@));
            match node_ref_at(&scene_graph.root, &path, 0) {
                Node::RenderNode(_) => Some(path),
                _ => None,
            }
        },
        None => None,
    };
    if model_path.is_some() {
        if scene_graph.light_count() > ShadowMap::MAX_LIGHTS as usize {
            return Err(SceneError::CapacityExceeded);
        }
        if device.remaining() < 4 {
            return Err(SceneError::ResourceExhaustion);
        }
    }
    let ghost before = scene_graph@;
    let ghost way = places(light_path@);
    let ghost moved_light = light_moved(node_at(before.root, way), x, z);
    match node_at_mut(&mut scene_graph.root, &light_path, 0) {
        Node::LightNode(light_node) => {
            light_node.light.pos.x = x;
            light_node.light.pos.z = z;
            assert(light_node@.light.pos =~= seq![
                number(x),
                node_at(before.root, way)->LightNode_0.light.pos[1],
                number(z),
            ]);
            assert(light_node@.light.pos =~= pos@);
        },
        _ => {},
    }
    assert(scene_graph@ == with_sun_at(before, x, z));
    match model_path {
        None => Ok(()),
        Some(model_path) => {
            let ghost lit = scene_graph@;
            let ghost model_way = places(model_path@);
            proof {
                let shown = with_sun_shown(before, x, z, device@);
                lemma_replace_elsewhere(before.root, way, moved_light, model_way);
                lemma_light_count_replace(before.root, way, moved_light);
                lemma_light_count_replace(
                    lit.root,
                    model_way,
                    NodeView::RenderNode(sun_model_moved(before, sun_position(before, x, z), device@)),
                );
                lemma_light_items_len(before.root, Mat4::identity_numbers());
                lemma_light_items_len(lit.root, Mat4::identity_numbers());
                lemma_light_items_len(shown.root, Mat4::identity_numbers());
            }
            match node_at_mut(&mut scene_graph.root, &model_path, 0) {
                Node::RenderNode(render) => {
                    let shown = render.set_matrix(Mat4::from_translation(pos), device);
                    assert(shown is Ok);
                },
                _ => {},
            }
            scene_graph.update_light_bind_group(device)
        },
    }
}

} // verus!
