//! The steps of a render pass, and drawing a scene into one.

use vstd::prelude::*;
use crate::camera::{camera_words, CameraUniform, CameraUniformView};
use crate::gpu::{BindGroup, Buffer, IndexFormat, RenderPassDescriptor, RenderPipeline};
use crate::lighting::render_item_views;
use crate::math::{push_words, Vec3};
use crate::scenegraph::{ModelUniform, RenderNodeView, SceneGraph};

verus! {

/// What is written into a uniform buffer while a frame is drawn.
#[derive(Clone, Copy, Debug)]
pub enum UniformData {
    Camera(CameraUniform),
    Model(ModelUniform),
}

/// What is written into a uniform buffer, by its numbers.
pub enum UniformDataView {
    Camera(CameraUniformView),
    Model(Seq<u32>),
}

impl View for UniformData {
    type V = UniformDataView;

    open spec fn view(&self) -> UniformDataView {
        match self {
            UniformData::Camera(c) => UniformDataView::Camera(c@),
            UniformData::Model(m) => UniformDataView::Model(m.view_proj@),
        }
    }
}

/// The words, each four bytes wide, that uniform data take in a buffer.
pub open spec fn uniform_words(data: UniformData) -> Seq<u32> {
    match data {
        UniformData::Camera(c) => camera_words(c),
        UniformData::Model(m) => m.view_proj.cols@,
    }
}

impl UniformData {
    /// The words that the data take in a buffer.
    pub fn words(&self) -> (words: Vec<u32>)
        ensures
            words@ == uniform_words(*self),
    {
        match self {
            UniformData::Camera(camera) => camera.words(),
            UniformData::Model(model) => {
                let mut words: Vec<u32> = Vec::new();
                push_words(&mut words, model.view_proj.cols.as_slice());
                words
            },
        }
    }
}

/// One step of drawing a frame. The steps between the beginning and the
/// end of a render pass belong to that pass; a write into a buffer goes
/// through the queue at the place where it stands.
#[derive(Clone, Copy, Debug)]
pub enum FrameCommand {
    BeginRenderPass(RenderPassDescriptor),
    SetPipeline(RenderPipeline),
    SetBindGroup { index: u32, bind_group: Option<BindGroup> },
    SetVertexBuffer { slot: u32, buffer: Buffer },
    SetIndexBuffer { buffer: Buffer, index_format: IndexFormat },
    WriteBuffer { buffer: Buffer, offset: u64, data: UniformData },
    /// Draws the indices from `first_index` up to, not including,
    /// `end_index`, once for each instance from `first_instance` up to, not
    /// including, `end_instance`.
    DrawIndexed { first_index: u32, end_index: u32, base_vertex: i32, first_instance: u32, end_instance: u32 },
    EndRenderPass,
}

/// One step of drawing a frame, by the numbers of what it writes.
pub enum FrameCommandView {
    BeginRenderPass(RenderPassDescriptor),
    SetPipeline(RenderPipeline),
    SetBindGroup { index: u32, bind_group: Option<BindGroup> },
    SetVertexBuffer { slot: u32, buffer: Buffer },
    SetIndexBuffer { buffer: Buffer, index_format: IndexFormat },
    WriteBuffer { buffer: Buffer, offset: u64, data: UniformDataView },
    DrawIndexed { first_index: u32, end_index: u32, base_vertex: i32, first_instance: u32, end_instance: u32 },
    EndRenderPass,
}

impl View for FrameCommand {
    type V = FrameCommandView;

    open spec fn view(&self) -> FrameCommandView {
        match *self {
            FrameCommand::BeginRenderPass(d) => FrameCommandView::BeginRenderPass(d),
            FrameCommand::SetPipeline(p) => FrameCommandView::SetPipeline(p),
            FrameCommand::SetBindGroup { index, bind_group } => FrameCommandView::SetBindGroup { index, bind_group },
            FrameCommand::SetVertexBuffer { slot, buffer } => FrameCommandView::SetVertexBuffer { slot, buffer },
            FrameCommand::SetIndexBuffer { buffer, index_format } => FrameCommandView::SetIndexBuffer {
                buffer,
                index_format,
            },
            FrameCommand::WriteBuffer { buffer, offset, data } => FrameCommandView::WriteBuffer {
                buffer,
                offset,
                data: data@,
            },
            FrameCommand::DrawIndexed { first_index, end_index, base_vertex, first_instance, end_instance } =>
                FrameCommandView::DrawIndexed { first_index, end_index, base_vertex, first_instance, end_instance },
            FrameCommand::EndRenderPass => FrameCommandView::EndRenderPass,
        }
    }
}

/// The steps of a list of commands.
pub open spec fn frame_command_views(commands: Seq<FrameCommand>) -> Seq<FrameCommandView> {
    commands.map_values(|c: FrameCommand| c@)
}

/// A render pass that takes note of its steps, beginning with the step
/// that opens it.
#[derive(Debug)]
pub struct RenderPass {
    commands: Vec<FrameCommand>,
}

impl View for RenderPass {
    type V = Seq<FrameCommandView>;

    closed spec fn view(&self) -> Seq<FrameCommandView> {
        frame_command_views(self.commands@)
    }
}

impl RenderPass {
    /// A pass that has been opened and has taken no other step.
    pub fn begin(descriptor: RenderPassDescriptor) -> (pass: RenderPass)
        ensures
            pass@ == seq![FrameCommandView::BeginRenderPass(descriptor)],
    {
        let mut commands: Vec<FrameCommand> = Vec::new();
        commands.push(FrameCommand::BeginRenderPass(descriptor));
        let pass = RenderPass { commands };
        assert(pass@ =~= seq![FrameCommandView::BeginRenderPass(descriptor)]);
        pass
    }

    fn record(&mut self, command: FrameCommand)
        ensures
            final(self)@ == old(self)@.push(command@),
    {
        self.commands.push(command);
        assert(final(self)@ =~= old(self)@.push(command@));
    }

    /// Sets the pipeline that the draws after this step go through.
    pub fn set_pipeline(&mut self, pipeline: &RenderPipeline)
        ensures
            final(self)@ == old(self)@.push(FrameCommandView::SetPipeline(*pipeline)),
    {
        self.record(FrameCommand::SetPipeline(*pipeline));
    }

    /// Binds `bind_group` at `index`; with `None` the place is left free.
    pub fn set_bind_group(&mut self, index: u32, bind_group: Option<BindGroup>)
        ensures
            final(self)@ == old(self)@.push(FrameCommandView::SetBindGroup { index, bind_group }),
    {
        self.record(FrameCommand::SetBindGroup { index, bind_group });
    }

    /// Sets the buffer that the draws after this step take their vertices
    /// from.
    pub fn set_vertex_buffer(&mut self, slot: u32, buffer: Buffer)
        ensures
            final(self)@ == old(self)@.push(FrameCommandView::SetVertexBuffer { slot, buffer }),
    {
        self.record(FrameCommand::SetVertexBuffer { slot, buffer });
    }

    /// Sets the buffer that the draws after this step take their indices
    /// from.
    pub fn set_index_buffer(&mut self, buffer: Buffer, index_format: IndexFormat)
        ensures
            final(self)@ == old(self)@.push(FrameCommandView::SetIndexBuffer { buffer, index_format }),
    {
        self.record(FrameCommand::SetIndexBuffer { buffer, index_format });
    }

    /// Writes `data` into `buffer` through the queue, at this place among
    /// the steps of the pass.
    pub fn write_buffer(&mut self, buffer: &Buffer, offset: u64, data: UniformData)
        ensures
            final(self)@ == old(self)@.push(FrameCommandView::WriteBuffer { buffer: *buffer, offset, data: data@ }),
    {
        self.record(FrameCommand::WriteBuffer { buffer: *buffer, offset, data });
    }

    /// Draws the first `index_count` indices once.
    pub fn draw_indexed(&mut self, index_count: u32)
        ensures
            final(self)@ == old(self)@.push(draw_of(index_count)),
    {
        self.record(
            FrameCommand::DrawIndexed {
                first_index: 0,
                end_index: index_count,
                base_vertex: 0,
                first_instance: 0,
                end_instance: 1,
            },
        );
    }

    /// Closes the pass and gives its steps, the closing one last.
    pub fn end(self) -> (commands: Vec<FrameCommand>)
        ensures
            frame_command_views(commands@) == self@.push(FrameCommandView::EndRenderPass),
    {
        let mut commands = self.commands;
        commands.push(FrameCommand::EndRenderPass);
        assert(frame_command_views(commands@) =~= self@.push(FrameCommandView::EndRenderPass));
        commands
    }
}

/// The step that draws the first `index_count` indices once.
pub open spec fn draw_of(index_count: u32) -> FrameCommandView {
    FrameCommandView::DrawIndexed {
        first_index: 0,
        end_index: index_count,
        base_vertex: 0,
        first_instance: 0,
        end_instance: 1,
    }
}

/// The steps that draw one render node with its material: its buffers are
/// set, its world transform is written into `model_mat_buffer`, its
/// material is bound at `material_bind_group_index`, or that place is left
/// free where the node has no material, and its indices are drawn.
pub open spec fn node_draw(
    item: (RenderNodeView, Seq<u32>),
    material_bind_group_index: u32,
    model_mat_buffer: Buffer,
) -> Seq<FrameCommandView> {
    seq![
        FrameCommandView::SetVertexBuffer { slot: 0, buffer: item.0.vertex_buffer },
        FrameCommandView::SetIndexBuffer { buffer: item.0.index_buffer, index_format: IndexFormat::Uint32 },
        FrameCommandView::WriteBuffer { buffer: model_mat_buffer, offset: 0, data: UniformDataView::Model(item.1) },
        FrameCommandView::SetBindGroup { index: material_bind_group_index, bind_group: item.0.material_bind_group },
        draw_of(item.0.num_elements),
    ]
}

/// The steps that draw the shape of one render node, without a material:
/// its world transform is written into `model_mat_buffer`, its buffers are
/// set, and its indices are drawn.
pub open spec fn node_draw_vertices(item: (RenderNodeView, Seq<u32>), model_mat_buffer: Buffer) -> Seq<
    FrameCommandView,
> {
    seq![
        FrameCommandView::WriteBuffer { buffer: model_mat_buffer, offset: 0, data: UniformDataView::Model(item.1) },
        FrameCommandView::SetVertexBuffer { slot: 0, buffer: item.0.vertex_buffer },
        FrameCommandView::SetIndexBuffer { buffer: item.0.index_buffer, index_format: IndexFormat::Uint32 },
        draw_of(item.0.num_elements),
    ]
}

/// The steps that draw the first `k` of `items` with their materials, one
/// node after the other.
pub open spec fn scene_draw(
    items: Seq<(RenderNodeView, Seq<u32>)>,
    material_bind_group_index: u32,
    model_mat_buffer: Buffer,
    k: int,
) -> Seq<FrameCommandView>
    decreases k,
{
    if 0 < k <= items.len() {
        scene_draw(items, material_bind_group_index, model_mat_buffer, k - 1) + node_draw(
            items[k - 1],
            material_bind_group_index,
            model_mat_buffer,
        )
    } else {
        Seq::empty()
    }
}

/// The steps that draw the shapes of the first `k` of `items`, one node
/// after the other.
pub open spec fn scene_draw_vertices(items: Seq<(RenderNodeView, Seq<u32>)>, model_mat_buffer: Buffer, k: int)
    -> Seq<FrameCommandView>
    decreases k,
{
    if 0 < k <= items.len() {
        scene_draw_vertices(items, model_mat_buffer, k - 1) + node_draw_vertices(items[k - 1], model_mat_buffer)
    } else {
        Seq::empty()
    }
}

/// Drawing a scene into a pass.
pub trait DrawScenegraph {
    /// The steps that the pass has taken.
    spec fn steps(&self) -> Seq<FrameCommandView>;

    /// Draws every render node of the scene with its material, in the
    /// order of the walk from the root. The world transform of a node is
    /// written into `model_mat_buffer` just before the node is drawn. The
    /// position of the camera does not change what is drawn.
    fn draw_scenegraph(
        &mut self,
        scenegraph: &SceneGraph,
        material_bind_group_index: u32,
        model_mat_buffer: &Buffer,
        camera_position: &Vec3,
    )
        ensures
            final(self).steps() == old(self).steps() + scene_draw(
                scenegraph@.render_nodes(),
                material_bind_group_index,
                *model_mat_buffer,
                scenegraph@.render_nodes().len() as int,
            ),
    ;

    /// Draws the shape of every render node of the scene, in the order of
    /// the walk from the root. The world transform of a node is written
    /// into `model_mat_buffer` just before the node is drawn.
    fn draw_scenegraph_vertices(&mut self, scenegraph: &SceneGraph, model_mat_buffer: &Buffer)
        ensures
            final(self).steps() == old(self).steps() + scene_draw_vertices(
                scenegraph@.render_nodes(),
                *model_mat_buffer,
                scenegraph@.render_nodes().len() as int,
            ),
    ;
}

impl DrawScenegraph for RenderPass {
    open spec fn steps(&self) -> Seq<FrameCommandView> {
        self@
    }

    fn draw_scenegraph(
        &mut self,
        scenegraph: &SceneGraph,
        material_bind_group_index: u32,
        model_mat_buffer: &Buffer,
        camera_position: &Vec3,
    ) {
        let render_nodes = scenegraph.get_render_nodes();
        let ghost items = scenegraph@.render_nodes();
        let mut i: usize = 0;
        while i < render_nodes.len()
            invariant
                i <= render_nodes.len(),
                render_item_views(render_nodes@) == items,
                self@ == old(self)@ + scene_draw(items, material_bind_group_index, *model_mat_buffer, i as int),
            decreases render_nodes.len() - i,
        {
            let render_node = render_nodes[i];
            let ghost before = self@;
            assert(items[i as int] == (render_node.0@, render_node.1@));
            self.set_vertex_buffer(0, render_node.0.vertex_buffer);
            self.set_index_buffer(render_node.0.index_buffer, IndexFormat::Uint32);
            self.write_buffer(model_mat_buffer, 0, UniformData::Model(ModelUniform { view_proj: render_node.1 }));
            self.set_bind_group(material_bind_group_index, render_node.0.material_bind_group);
            self.draw_indexed(render_node.0.num_elements);
            assert(self@ =~= before + node_draw(items[i as int], material_bind_group_index, *model_mat_buffer));
            assert(self@ =~= old(self)@ + scene_draw(
                items,
                material_bind_group_index,
                *model_mat_buffer,
                i as int + 1,
            ));
            i += 1;
        }
        assert(old(self)@ + Seq::<FrameCommandView>::empty() =~= old(self)@);
    }

    fn draw_scenegraph_vertices(&mut self, scenegraph: &SceneGraph, model_mat_buffer: &Buffer) {
        let render_nodes = scenegraph.get_render_nodes();
        let ghost items = scenegraph@.render_nodes();
        let mut i: usize = 0;
        while i < render_nodes.len()
            invariant
                i <= render_nodes.len(),
                render_item_views(render_nodes@) == items,
                self@ == old(self)@ + scene_draw_vertices(items, *model_mat_buffer, i as int),
            decreases render_nodes.len() - i,
        {
            let render_node = render_nodes[i];
            let ghost before = self@;
            assert(items[i as int] == (render_node.0@, render_node.1@));
            self.write_buffer(model_mat_buffer, 0, UniformData::Model(ModelUniform { view_proj: render_node.1 }));
            self.set_vertex_buffer(0, render_node.0.vertex_buffer);
            self.set_index_buffer(render_node.0.index_buffer, IndexFormat::Uint32);
            self.draw_indexed(render_node.0.num_elements);
            assert(self@ =~= before + node_draw_vertices(items[i as int], *model_mat_buffer));
            assert(self@ =~= old(self)@ + scene_draw_vertices(items, *model_mat_buffer, i as int + 1));
            i += 1;
        }
        assert(old(self)@ + Seq::<FrameCommandView>::empty() =~= old(self)@);
    }
}

} // verus!
