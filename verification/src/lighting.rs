//! Gathering the lights of a scene and keeping their bind group in step
//! with them.

use vstd::prelude::*;
use crate::device::{
    BindGroupDescriptor, BindGroupDescriptorView, BufferContents, BufferContentsView,
    BufferInitDescriptor, BufferInitDescriptorView, Device, DeviceCommandView, DeviceView,
};
use crate::error::SceneError;
use crate::gpu::{BindGroup, BindGroupEntry, BindGroupLayout, BindingResource, Buffer, BufferUsages};
use crate::iterators::{SceneGraphLightNodeIterator, SceneGraphRenderNodeIterator};
use crate::light::{
    is_light_matrix, light_layout_descriptor, light_uniform_view, light_uniform_views, LightUniform,
    LightUniformView, ShadowMap,
};
use crate::math::Mat4;
use crate::scenegraph::{LightNode, LightNodeView, RenderNode, RenderNodeView, SceneGraph, SceneGraphView};
use crate::traversal::{lemma_light_items_len, light_count, light_items, render_items, visits};

verus! {

/// The views of light nodes that were taken with their world transforms.
pub open spec fn light_item_views(items: Seq<(&LightNode, Mat4)>) -> Seq<(LightNodeView, Seq<u32>)> {
    items.map_values(|item: (&LightNode, Mat4)| (item.0@, item.1@))
}

/// The views of render nodes that were taken with their world transforms.
pub open spec fn render_item_views(items: Seq<(&RenderNode, Mat4)>) -> Seq<(RenderNodeView, Seq<u32>)> {
    items.map_values(|item: (&RenderNode, Mat4)| (item.0@, item.1@))
}

/// Whether `uniforms` are those of `lights`, one for one and in order:
/// each with the position and colour of its light, with the world
/// transform of its node, and with a view-projection matrix of the light
/// under that transform.
pub open spec fn uniforms_match(uniforms: Seq<LightUniformView>, lights: Seq<(LightNodeView, Seq<u32>)>) -> bool {
    &&& uniforms.len() == lights.len()
    &&& forall|i: int|
        0 <= i < uniforms.len() ==> {
            &&& #[trigger] uniforms[i] == light_uniform_view(lights[i].0.light, lights[i].1, uniforms[i].view_proj)
            &&& is_light_matrix(uniforms[i].view_proj, lights[i].0.light, lights[i].1)
        }
}

/// The device after the holder of a resource, if there is one, has let go
/// of it.
pub open spec fn released(device: DeviceView, id: Option<u64>) -> DeviceView {
    match id {
        Some(id) => device.after(0, DeviceCommandView::Release { id }),
        None => device,
    }
}

/// The buffer that holds the uniforms of the lights: a storage buffer
/// where the device has them, else a uniform buffer.
pub open spec fn light_buffer_descriptor(uniforms: Seq<LightUniformView>, supports_storage_resources: bool)
    -> BufferInitDescriptorView {
    BufferInitDescriptorView {
        label: "Light Buffer"@,
        contents: BufferContentsView::Lights(uniforms),
        usage: BufferUsages {
            vertex: false,
            index: false,
            uniform: !supports_storage_resources,
            storage: supports_storage_resources,
            copy_src: true,
            copy_dst: true,
        },
    }
}

/// The bind group of the lights: the buffer of their uniforms, the shadow
/// map and its sampler.
pub open spec fn light_bind_group_descriptor(layout: BindGroupLayout, buffer: Buffer, shadow_map: ShadowMap)
    -> BindGroupDescriptorView {
    BindGroupDescriptorView {
        label: "Light Bind Group"@,
        layout,
        entries: seq![
            BindGroupEntry { binding: 0, resource: BindingResource::Buffer { buffer, offset: 0, size: None } },
            BindGroupEntry { binding: 1, resource: BindingResource::TextureView(shadow_map.view) },
            BindGroupEntry { binding: 2, resource: BindingResource::Sampler(shadow_map.sampler) },
        ],
    }
}

/// The handle in an optional bind-group layout.
pub open spec fn layout_id(layout: Option<BindGroupLayout>) -> Option<u64> {
    match layout {
        Some(l) => Some(l.id),
        None => None,
    }
}

/// The handle in an optional bind group.
pub open spec fn bind_group_id(bind_group: Option<BindGroup>) -> Option<u64> {
    match bind_group {
        Some(b) => Some(b.id),
        None => None,
    }
}

impl SceneGraphView {
    /// The light nodes of the scene, each with its world transform, in the
    /// order of the walk from the root.
    pub open spec fn lights(self) -> Seq<(LightNodeView, Seq<u32>)> {
        light_items(visits(self.root, Mat4::identity_numbers()))
    }

    /// The render nodes of the scene, each with its world transform, in
    /// the order of the walk from the root.
    pub open spec fn render_nodes(self) -> Seq<(RenderNodeView, Seq<u32>)> {
        render_items(visits(self.root, Mat4::identity_numbers()))
    }

    /// Whether the scene has a bind group and a layout for its lights
    /// exactly where it has a light.
    pub open spec fn lights_synced(self) -> bool {
        &&& self.light_bind_group is Some <==> self.lights().len() > 0
        &&& self.light_bind_group_layout is Some <==> self.lights().len() > 0
    }

    /// Why the layout for the lights cannot be made anew: the scene holds
    /// more lights than the shadow map has layers, or the device has no
    /// handle left for the layout. `None` where it can.
    pub open spec fn layout_update_error(self, device: DeviceView) -> Option<SceneError> {
        if self.lights().len() > ShadowMap::MAX_LIGHTS {
            Some(SceneError::CapacityExceeded)
        } else if self.lights().len() > 0 && device.remaining() < 1 {
            Some(SceneError::ResourceExhaustion)
        } else {
            None
        }
    }

    /// The scene after the layout for its lights has been made anew from
    /// the state `device` on: none without a light, else the next layout.
    pub open spec fn after_layout_update(self, device: DeviceView) -> SceneGraphView {
        SceneGraphView {
            light_bind_group_layout: if self.lights().len() == 0 {
                None
            } else {
                Some(BindGroupLayout { id: device.next_id })
            },
            ..self
        }
    }

    /// What the device is asked when the layout for the lights is made
    /// anew: the layout for as many lights as the scene holds, if it holds
    /// any; then the layout that the scene had is let go.
    pub open spec fn layout_update_commands(self, device: DeviceView) -> DeviceView {
        if self.lights().len() == 0 {
            released(device, layout_id(self.light_bind_group_layout))
        } else {
            released(
                device.after(
                    1,
                    DeviceCommandView::CreateBindGroupLayout {
                        layout: BindGroupLayout { id: device.next_id },
                        descriptor: light_layout_descriptor(
                            self.lights().len() as u32,
                            self.supports_storage_resources,
                        ),
                    },
                ),
                layout_id(self.light_bind_group_layout),
            )
        }
    }

    /// Why the bind group for the lights cannot be made anew: the scene
    /// holds more lights than the shadow map has layers, or the device has
    /// fewer than the three handles left that the buffer, the layout and
    /// the bind group take. `None` where it can.
    pub open spec fn light_update_error(self, device: DeviceView) -> Option<SceneError> {
        if self.lights().len() > ShadowMap::MAX_LIGHTS {
            Some(SceneError::CapacityExceeded)
        } else if self.lights().len() > 0 && device.remaining() < 3 {
            Some(SceneError::ResourceExhaustion)
        } else {
            None
        }
    }

    /// The scene after the bind group for its lights has been made anew
    /// from the state `device` on. Without a light it has neither bind
    /// group nor layout; else the layout and the bind group are those that
    /// the device makes after the buffer of the uniforms.
    pub open spec fn after_light_update(self, device: DeviceView) -> SceneGraphView {
        if self.lights().len() == 0 {
            SceneGraphView { light_bind_group: None, light_bind_group_layout: None, lights_dirty: true, ..self }
        } else {
            SceneGraphView {
                light_bind_group: Some(BindGroup { id: (device.next_id + 2) as u64 }),
                light_bind_group_layout: Some(BindGroupLayout { id: (device.next_id + 1) as u64 }),
                lights_dirty: true,
                ..self
            }
        }
    }

    /// What the device is asked when the bind group for the lights is made
    /// anew with the uniforms `uniforms`. Without a light the layout and
    /// the bind group that the scene had are let go. Else: the buffer of
    /// the uniforms; the layout, for which the old one is let go; the bind
    /// group, for which the old one is let go; and at last the buffer is
    /// let go, which the bind group keeps.
    pub open spec fn light_update_commands(self, device: DeviceView, uniforms: Seq<LightUniformView>)
        -> DeviceView {
        if self.lights().len() == 0 {
            released(
                released(device, layout_id(self.light_bind_group_layout)),
                bind_group_id(self.light_bind_group),
            )
        } else {
            let buffer = Buffer { id: device.next_id };
            let with_buffer = device.after(
                1,
                DeviceCommandView::CreateBufferInit {
                    buffer,
                    descriptor: light_buffer_descriptor(uniforms, self.supports_storage_resources),
                },
            );
            let with_layout = self.layout_update_commands(with_buffer);
            let with_group = released(
                with_layout.after(
                    1,
                    DeviceCommandView::CreateBindGroup {
                        bind_group: BindGroup { id: (device.next_id + 2) as u64 },
                        descriptor: light_bind_group_descriptor(
                            BindGroupLayout { id: (device.next_id + 1) as u64 },
                            buffer,
                            self.shadow_map,
                        ),
                    },
                ),
                bind_group_id(self.light_bind_group),
            );
            with_group.after(0, DeviceCommandView::Release { id: buffer.id })
        }
    }
}

fn release_layout(device: &mut Device, layout: Option<BindGroupLayout>)
    ensures
        final(device)@ == released(old(device)@, layout_id(layout)),
{
    match layout {
        Some(layout) => device.release(layout.id),
        None => {},
    }
}

fn release_bind_group(device: &mut Device, bind_group: Option<BindGroup>)
    ensures
        final(device)@ == released(old(device)@, bind_group_id(bind_group)),
{
    match bind_group {
        Some(bind_group) => device.release(bind_group.id),
        None => {},
    }
}

impl SceneGraph {
    /// The light nodes of the scene, each with its world transform, in the
    /// order of the walk from the root.
    pub fn get_light_nodes(&self) -> (nodes: Vec<(&LightNode, Mat4)>)
        ensures
            light_item_views(nodes@) == self@.lights(),
    {
        let mut iterator = SceneGraphLightNodeIterator::new(self);
        let mut nodes: Vec<(&LightNode, Mat4)> = Vec::new();
        assert(light_item_views(nodes@) + iterator.remaining() =~= self@.lights());
        loop
            invariant
                light_item_views(nodes@) + iterator.remaining() == self@.lights(),
            ensures
                light_item_views(nodes@) == self@.lights(),
            decreases iterator.remaining().len(),
        {
            let ghost before = iterator.remaining();
            match iterator.next() {
                Some(item) => {
                    let ghost taken = nodes@;
                    nodes.push(item);
                    assert(light_item_views(nodes@) =~= light_item_views(taken).push((item.0@, item.1@)));
                    assert(light_item_views(nodes@) + iterator.remaining() =~= light_item_views(taken) + before);
                },
                None => {
                    assert(light_item_views(nodes@) + iterator.remaining() =~= light_item_views(nodes@));
                    break ;
                },
            }
        }
        nodes
    }

    /// The render nodes of the scene, each with its world transform, in
    /// the order of the walk from the root.
    pub fn get_render_nodes(&self) -> (nodes: Vec<(&RenderNode, Mat4)>)
        ensures
            render_item_views(nodes@) == self@.render_nodes(),
    {
        let mut iterator = SceneGraphRenderNodeIterator::new(self);
        let mut nodes: Vec<(&RenderNode, Mat4)> = Vec::new();
        assert(render_item_views(nodes@) + iterator.remaining() =~= self@.render_nodes());
        loop
            invariant
                render_item_views(nodes@) + iterator.remaining() == self@.render_nodes(),
            ensures
                render_item_views(nodes@) == self@.render_nodes(),
            decreases iterator.remaining().len(),
        {
            let ghost before = iterator.remaining();
            match iterator.next() {
                Some(item) => {
                    let ghost taken = nodes@;
                    nodes.push(item);
                    assert(render_item_views(nodes@) =~= render_item_views(taken).push((item.0@, item.1@)));
                    assert(render_item_views(nodes@) + iterator.remaining() =~= render_item_views(taken)
                        + before);
                },
                None => {
                    assert(render_item_views(nodes@) + iterator.remaining() =~= render_item_views(nodes@));
                    break ;
                },
            }
        }
        nodes
    }

    /// How many lights the scene holds.
    pub fn light_count(&self) -> (count: usize)
        ensures
            count == self@.lights().len(),
            count == light_count(self@.root),
    {
        proof {
            lemma_light_items_len(self@.root, Mat4::identity_numbers());
        }
        self.get_light_nodes().len()
    }

    /// The uniforms of the lights of the scene, in the order of the walk
    /// from the root.
    pub fn get_light_uniforms(&self) -> (uniforms: Vec<LightUniform>)
        ensures
            uniforms_match(light_uniform_views(uniforms@), self@.lights()),
    {
        let nodes = self.get_light_nodes();
        let mut uniforms: Vec<LightUniform> = Vec::new();
        let mut i: usize = 0;
        while i < nodes.len()
            invariant
                i <= nodes.len(),
                uniforms.len() == i,
                light_item_views(nodes@) == self@.lights(),
                forall|j: int|
                    0 <= j < i ==> (#[trigger] uniforms[j])@ == light_uniform_view(
                        self@.lights()[j].0.light,
                        self@.lights()[j].1,
                        uniforms[j]@.view_proj,
                    ) && is_light_matrix(
                        uniforms[j]@.view_proj,
                        self@.lights()[j].0.light,
                        self@.lights()[j].1,
                    ),
            decreases nodes.len() - i,
        {
            assert(light_item_views(nodes@)[i as int] == (nodes[i as int].0@, nodes[i as int].1@));
            let uniform = LightUniform::from_light(&nodes[i].0.light, nodes[i].1);
            uniforms.push(uniform);
            i += 1;
        }
        assert(light_uniform_views(uniforms@).len() == self@.lights().len());
        uniforms
    }

    /// Makes the layout of the bind group for the lights anew, for as many
    /// lights as the scene holds: a scene without a light has no layout.
    /// The layout that the scene had is let go. Fails, and changes
    /// nothing, where the scene holds more lights than the shadow map has
    /// layers or where the device has no handle left.
    pub fn update_light_bind_group_layout(&mut self, device: &mut Device) -> (updated: Result<(), SceneError>)
        ensures
            match updated {
                Ok(()) => {
                    &&& old(self)@.layout_update_error(old(device)@) is None
                    &&& final(self)@ == old(self)@.after_layout_update(old(device)@)
                    &&& final(device)@ == old(self)@.layout_update_commands(old(device)@)
                },
                Err(e) => old(self)@.layout_update_error(old(device)@) == Some(e) && final(self)@ == old(self)@
                    && final(device)@ == old(device)@,
            },
    {
        let light_count = self.light_count();
        if light_count > ShadowMap::MAX_LIGHTS as usize {
            return Err(SceneError::CapacityExceeded);
        }
        let replaced = self.light_bind_group_layout;
        if light_count == 0 {
            self.light_bind_group_layout = None;
        } else {
            match LightUniform::get_bind_group_layout(device, light_count as u32, self.supports_storage_resources) {
                Ok(layout) => {
                    self.light_bind_group_layout = Some(layout);
                },
                Err(e) => {
                    return Err(e);
                },
            }
        }
        release_layout(device, replaced);
        Ok(())
    }

    /// Makes the bind group for the lights anew, with `light_uniforms` as
    /// the uniforms of the lights, and marks the lights as changed. For a
    /// scene without a light the bind group and its layout are taken away.
    /// Fails, and changes nothing, where the scene holds more lights than
    /// the shadow map has layers or where the device has too few handles
    /// left.
    pub fn bind_light_uniforms(&mut self, device: &mut Device, light_uniforms: Vec<LightUniform>) -> (updated:
        Result<(), SceneError>)
        ensures
            match updated {
                Ok(()) => {
                    &&& old(self)@.light_update_error(old(device)@) is None
                    &&& final(self)@ == old(self)@.after_light_update(old(device)@)
                    &&& final(device)@ == old(self)@.light_update_commands(
                        old(device)@,
                        light_uniform_views(light_uniforms@),
                    )
                },
                Err(e) => old(self)@.light_update_error(old(device)@) == Some(e) && final(self)@ == old(self)@
                    && final(device)@ == old(device)@,
            },
    {
        let light_count = self.light_count();
        if light_count > ShadowMap::MAX_LIGHTS as usize {
            return Err(SceneError::CapacityExceeded);
        }
        if light_count == 0 {
            self.lights_dirty = true;
            release_layout(device, self.light_bind_group_layout);
            release_bind_group(device, self.light_bind_group);
            self.light_bind_group_layout = None;
            self.light_bind_group = None;
            return Ok(());
        }
        if device.remaining() < 3 {
            return Err(SceneError::ResourceExhaustion);
        }
        self.lights_dirty = true;
        let light_buffer = device.create_buffer_init(
            BufferInitDescriptor {
                label: String::from_str("Light Buffer"),
                contents: BufferContents::Lights(light_uniforms),
                usage: BufferUsages {
                    vertex: false,
                    index: false,
                    uniform: !self.supports_storage_resources,
                    storage: self.supports_storage_resources,
                    copy_src: true,
                    copy_dst: true,
                },
            },
        );
        let layout_updated = self.update_light_bind_group_layout(device);
        assert(layout_updated is Ok);
        match self.light_bind_group_layout {
            Some(light_bind_group_layout) => {
                let mut entries: Vec<BindGroupEntry> = Vec::new();
                entries.push(
                    BindGroupEntry { binding: 0, resource: BindingResource::entire_buffer(light_buffer) },
                );
                entries.push(
                    BindGroupEntry { binding: 1, resource: BindingResource::TextureView(self.shadow_map.view) },
                );
                entries.push(
                    BindGroupEntry { binding: 2, resource: BindingResource::Sampler(self.shadow_map.sampler) },
                );
                let descriptor = BindGroupDescriptor {
                    label: String::from_str("Light Bind Group"),
                    layout: light_bind_group_layout,
                    entries,
                };
                assert(descriptor@.entries =~= light_bind_group_descriptor(
                    light_bind_group_layout,
                    light_buffer,
                    self.shadow_map,
                ).entries);
                let replaced = self.light_bind_group;
                self.light_bind_group = Some(device.create_bind_group(descriptor));
                release_bind_group(device, replaced);
            },
            None => {},
        }
        device.release(light_buffer.id);
        Ok(())
    }

    /// Makes the bind group for the lights anew from the lights that the
    /// scene holds, and marks the lights as changed. The uniforms are
    /// those of the lights, one for one and in the order of the walk.
    /// Fails, and changes nothing, where the scene holds more lights than
    /// the shadow map has layers or where the device has too few handles
    /// left.
    pub fn update_light_bind_group(&mut self, device: &mut Device) -> (updated: Result<(), SceneError>)
        ensures
            match updated {
                Ok(()) => {
                    &&& old(self)@.light_update_error(old(device)@) is None
                    &&& final(self)@ == old(self)@.after_light_update(old(device)@)
                    &&& final(self)@.lights_synced()
                    &&& exists|uniforms: Seq<LightUniformView>|
                        uniforms_match(uniforms, old(self)@.lights()) && final(device)@ == old(
                            self,
                        )@.light_update_commands(old(device)@, uniforms)
                },
                Err(e) => old(self)@.light_update_error(old(device)@) == Some(e) && final(self)@ == old(self)@
                    && final(device)@ == old(device)@,
            },
    {
        let light_uniforms = self.get_light_uniforms();
        let ghost uniforms = light_uniform_views(light_uniforms@);
        let updated = self.bind_light_uniforms(device, light_uniforms);
        proof {
            if updated is Ok {
                assert(uniforms_match(uniforms, old(self)@.lights()) && final(device)@ == old(
                    self,
                )@.light_update_commands(old(device)@, uniforms));
            }
        }
        updated
    }

    /// Ends a frame: from here on the lights count as unchanged.
    pub fn on_frame_update(&mut self)
        ensures
            final(self)@ == (SceneGraphView { lights_dirty: false, ..old(self)@ }),
    {
        self.lights_dirty = false;
    }
}

} // verus!
