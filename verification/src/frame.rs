//! The steps of a frame: the shadow passes of the lights, then the
//! forward pass.

use vstd::prelude::*;
use crate::camera::{CameraUniform, CameraUniformView};
use crate::draw::{
    frame_command_views, scene_draw, scene_draw_vertices, DrawScenegraph, FrameCommand,
    FrameCommandView, RenderPass, UniformData, UniformDataView,
};
use crate::gpu::{
    BindGroup, Buffer, ClearColor, ColorAttachment, ColorLoadOp, DepthAttachment, DepthLoadOp,
    RenderPassDescriptor, RenderPipeline, StoreOp, TextureView,
};
use crate::light::is_light_matrix;
use crate::lighting::light_item_views;
use crate::math::{Vec3, ONE};
use crate::scenegraph::{LightNodeView, RenderNodeView, SceneGraph, SceneGraphView};

verus! {

/// Where the forward pass binds the camera.
pub const CAMERA_BIND_GROUP_INDEX: u32 = 0;

/// Where both passes bind the transform of the node that is drawn.
pub const MODEL_BIND_GROUP_INDEX: u32 = 1;

/// Where the forward pass binds the material of the node that is drawn.
pub const MATERIAL_BIND_GROUP_INDEX: u32 = 2;

/// Where the forward pass binds the lights.
pub const LIGHT_BIND_GROUP_INDEX: u32 = 3;

/// What drawing a frame needs besides the scene: the pipelines, the depth
/// target, and the buffers and bind groups of the camera, of the camera of
/// the shadow pass and of the transform of the node that is drawn.
#[derive(Clone, Copy, Debug)]
pub struct FrameResources {
    pub render_pipeline: RenderPipeline,
    pub shadow_pipeline: RenderPipeline,
    pub depth_view: TextureView,
    pub model_matrix_buffer: Buffer,
    pub model_matrix_bind_group: BindGroup,
    pub camera_buffer: Buffer,
    pub camera_bind_group: BindGroup,
    pub sp_camera_buffer: Buffer,
    pub sp_camera_bind_group: BindGroup,
}

/// The steps of a frame, in the order in which they are to be carried
/// out.
#[derive(Debug)]
pub struct CommandEncoder {
    commands: Vec<FrameCommand>,
}

impl View for CommandEncoder {
    type V = Seq<FrameCommandView>;

    closed spec fn view(&self) -> Seq<FrameCommandView> {
        frame_command_views(self.commands@)
    }
}

impl CommandEncoder {
    /// An encoder without a step.
    pub fn new() -> (encoder: CommandEncoder)
        ensures
            encoder@ == Seq::<FrameCommandView>::empty(),
    {
        let encoder = CommandEncoder { commands: Vec::new() };
        assert(encoder@ =~= Seq::<FrameCommandView>::empty());
        encoder
    }

    /// Opens a render pass. Its steps count once it is ended.
    pub fn begin_render_pass(&self, descriptor: RenderPassDescriptor) -> (pass: RenderPass)
        ensures
            pass@ == seq![FrameCommandView::BeginRenderPass(descriptor)],
    {
        RenderPass::begin(descriptor)
    }

    /// Ends `pass` and takes its steps behind those that the encoder has.
    pub fn end_render_pass(&mut self, pass: RenderPass)
        ensures
            final(self)@ == old(self)@ + pass@.push(FrameCommandView::EndRenderPass),
    {
        let mut steps = pass.end();
        let ghost taken = steps@;
        self.commands.append(&mut steps);
        assert(final(self)@ =~= old(self)@ + frame_command_views(taken));
    }

    /// Writes `data` into `buffer` through the queue, outside any pass.
    pub fn write_buffer(&mut self, buffer: &Buffer, offset: u64, data: UniformData)
        ensures
            final(self)@ == old(self)@.push(FrameCommandView::WriteBuffer { buffer: *buffer, offset, data: data@ }),
    {
        self.commands.push(FrameCommand::WriteBuffer { buffer: *buffer, offset, data });
        assert(final(self)@ =~= old(self)@.push(
            FrameCommandView::WriteBuffer { buffer: *buffer, offset, data: data@ },
        ));
    }

    /// The steps of the frame, first to last.
    pub fn finish(self) -> (commands: Vec<FrameCommand>)
        ensures
            frame_command_views(commands@) == self@,
    {
        self.commands
    }
}

/// The targets of the shadow pass of a light: no colour target, and as
/// depth target the layer of the shadow map that belongs to the light,
/// cleared to the depth `1` and kept.
pub open spec fn shadow_pass_descriptor(target: TextureView) -> RenderPassDescriptor {
    RenderPassDescriptor {
        color_attachment: None,
        depth_stencil_attachment: Some(
            DepthAttachment { view: target, load: DepthLoadOp::Clear(ONE), store: StoreOp::Store },
        ),
    }
}

/// The colour that the forward pass clears the frame with: `(0.1, 0.2,
/// 0.3)`, opaque.
pub open spec fn background() -> ClearColor {
    ClearColor {
        r: 0x3fb9_9999_9999_999a,
        g: 0x3fc9_9999_9999_999a,
        b: 0x3fd3_3333_3333_3333,
        a: 0x3ff0_0000_0000_0000,
    }
}

/// The targets of the forward pass: the frame, cleared to the background
/// and kept, and the depth target, cleared to the depth `1` and not kept.
pub open spec fn forward_pass_descriptor(frame_view: TextureView, depth_view: TextureView) -> RenderPassDescriptor {
    RenderPassDescriptor {
        color_attachment: Some(
            ColorAttachment { view: frame_view, load: ColorLoadOp::Clear(background()), store: StoreOp::Store },
        ),
        depth_stencil_attachment: Some(
            DepthAttachment { view: depth_view, load: DepthLoadOp::Clear(ONE), store: StoreOp::Discard },
        ),
    }
}

/// The shadow pass of one light, seen through `camera`: the pass is
/// opened on the layer of the light; the shadow pipeline and the bind
/// group of the node transform are set; the camera of the light is written
/// into the buffer of the shadow camera, which is then bound; the shapes
/// of all render nodes are drawn; the pass is ended.
pub open spec fn shadow_pass(
    resources: FrameResources,
    target: TextureView,
    camera: CameraUniformView,
    render_nodes: Seq<(RenderNodeView, Seq<u32>)>,
) -> Seq<FrameCommandView> {
    seq![
        FrameCommandView::BeginRenderPass(shadow_pass_descriptor(target)),
        FrameCommandView::SetPipeline(resources.shadow_pipeline),
        FrameCommandView::SetBindGroup { index: 1, bind_group: Some(resources.model_matrix_bind_group) },
        FrameCommandView::WriteBuffer {
            buffer: resources.sp_camera_buffer,
            offset: 0,
            data: UniformDataView::Camera(camera),
        },
        FrameCommandView::SetBindGroup { index: 0, bind_group: Some(resources.sp_camera_bind_group) },
    ] + scene_draw_vertices(render_nodes, resources.model_matrix_buffer, render_nodes.len() as int).push(
        FrameCommandView::EndRenderPass,
    )
}

/// The shadow passes of the first `k` of `lights`, one after the other,
/// the light `i` seen through the camera `i`.
pub open spec fn shadow_passes(
    resources: FrameResources,
    lights: Seq<(LightNodeView, Seq<u32>)>,
    cameras: Seq<CameraUniformView>,
    render_nodes: Seq<(RenderNodeView, Seq<u32>)>,
    k: int,
) -> Seq<FrameCommandView>
    decreases k,
{
    if 0 < k <= lights.len() {
        shadow_passes(resources, lights, cameras, render_nodes, k - 1) + shadow_pass(
            resources,
            lights[k - 1].0.light.target_view,
            cameras[k - 1],
            render_nodes,
        )
    } else {
        Seq::empty()
    }
}

/// Whether `cameras` are those of `lights`, one for one and in order: each
/// stands where its light stands and sees through a view-projection matrix
/// of that light under the world transform of its node.
pub open spec fn cameras_match(cameras: Seq<CameraUniformView>, lights: Seq<(LightNodeView, Seq<u32>)>) -> bool {
    &&& cameras.len() == lights.len()
    &&& forall|i: int|
        0 <= i < cameras.len() ==> {
            &&& (#[trigger] cameras[i]).position == lights[i].0.light.pos.push(ONE)
            &&& is_light_matrix(cameras[i].view_proj, lights[i].0.light, lights[i].1)
        }
}

/// The forward pass: the pass is opened on the frame; the render pipeline
/// and the bind groups of the camera and of the node transform are set;
/// the bind group of the lights is bound where the scene has one, and not
/// touched where it has none; all render nodes are drawn with their
/// materials; the pass is ended.
pub open spec fn forward_pass(resources: FrameResources, scene: SceneGraphView, frame_view: TextureView) -> Seq<
    FrameCommandView,
> {
    seq![
        FrameCommandView::BeginRenderPass(forward_pass_descriptor(frame_view, resources.depth_view)),
        FrameCommandView::SetPipeline(resources.render_pipeline),
        FrameCommandView::SetBindGroup { index: 0, bind_group: Some(resources.camera_bind_group) },
        FrameCommandView::SetBindGroup { index: 1, bind_group: Some(resources.model_matrix_bind_group) },
    ] + (match scene.light_bind_group {
        Some(lights) => seq![FrameCommandView::SetBindGroup { index: 3, bind_group: Some(lights) }],
        None => Seq::empty(),
    }) + scene_draw(scene.render_nodes(), 2, resources.model_matrix_buffer, scene.render_nodes().len() as int).push(
        FrameCommandView::EndRenderPass,
    )
}

/// The steps of a frame: the shadow passes of the lights, one after the
/// other in the order of the walk; the camera is written into its buffer;
/// the forward pass.
pub open spec fn frame(
    resources: FrameResources,
    scene: SceneGraphView,
    frame_view: TextureView,
    camera: CameraUniformView,
    cameras: Seq<CameraUniformView>,
) -> Seq<FrameCommandView> {
    shadow_passes(resources, scene.lights(), cameras, scene.render_nodes(), scene.lights().len() as int).push(
        FrameCommandView::WriteBuffer {
            buffer: resources.camera_buffer,
            offset: 0,
            data: UniformDataView::Camera(camera),
        },
    ) + forward_pass(resources, scene, frame_view)
}

/// Records the shadow pass of one light, whose layer of the shadow map is
/// `target` and whose camera is `camera`.
pub fn record_shadow_pass(
    resources: &FrameResources,
    scene_graph: &SceneGraph,
    encoder: &mut CommandEncoder,
    target: TextureView,
    camera: CameraUniform,
)
    ensures
        final(encoder)@ == old(encoder)@ + shadow_pass(*resources, target, camera@, scene_graph@.render_nodes()),
{
    let mut rpass = encoder.begin_render_pass(
        RenderPassDescriptor {
            color_attachment: None,
            depth_stencil_attachment: Some(
                DepthAttachment { view: target, load: DepthLoadOp::Clear(ONE), store: StoreOp::Store },
            ),
        },
    );
    rpass.set_pipeline(&resources.shadow_pipeline);
    rpass.set_bind_group(MODEL_BIND_GROUP_INDEX, Some(resources.model_matrix_bind_group));
    rpass.write_buffer(&resources.sp_camera_buffer, 0, UniformData::Camera(camera));
    rpass.set_bind_group(CAMERA_BIND_GROUP_INDEX, Some(resources.sp_camera_bind_group));
    rpass.draw_scenegraph_vertices(scene_graph, &resources.model_matrix_buffer);
    assert(rpass@.push(FrameCommandView::EndRenderPass) =~= shadow_pass(
        *resources,
        target,
        camera@,
        scene_graph@.render_nodes(),
    ));
    encoder.end_render_pass(rpass);
}

/// Records the shadow passes of all lights of the scene, one after the
/// other in the order of the walk from the root. Each light is seen
/// through the camera that [`crate::light::Light::to_camera_uniform`]
/// gives for it under its world transform.
pub fn render_shadow_pass(resources: &FrameResources, scene_graph: &SceneGraph, encoder: &mut CommandEncoder)
    ensures
        exists|cameras: Seq<CameraUniformView>|
            cameras_match(cameras, scene_graph@.lights()) && final(encoder)@ == old(encoder)@ + shadow_passes(
                *resources,
                scene_graph@.lights(),
                cameras,
                scene_graph@.render_nodes(),
                scene_graph@.lights().len() as int,
            ),
{
    let lights = scene_graph.get_light_nodes();
    let ghost items = scene_graph@.lights();
    let ghost nodes = scene_graph@.render_nodes();
    let ghost mut cameras: Seq<CameraUniformView> = Seq::empty();
    let mut i: usize = 0;
    assert(old(encoder)@ + Seq::<FrameCommandView>::empty() =~= old(encoder)@);
    while i < lights.len()
        invariant
            i <= lights.len(),
            light_item_views(lights@) == items,
            items == scene_graph@.lights(),
            nodes == scene_graph@.render_nodes(),
            cameras.len() == i,
            forall|j: int|
                0 <= j < i ==> (#[trigger] cameras[j]).position == items[j].0.light.pos.push(ONE)
                    && is_light_matrix(cameras[j].view_proj, items[j].0.light, items[j].1),
            encoder@ == old(encoder)@ + shadow_passes(*resources, items, cameras, nodes, i as int),
        decreases lights.len() - i,
    {
        let light_node = lights[i];
        assert(items[i as int] == (light_node.0@, light_node.1@));
        let camera = light_node.0.light.to_camera_uniform(light_node.1);
        let ghost before = cameras;
        proof {
            cameras = cameras.push(camera@);
            lemma_shadow_passes_prefix(*resources, items, before, cameras, nodes, i as int);
        }
        record_shadow_pass(resources, scene_graph, encoder, light_node.0.light.target_view, camera);
        assert(encoder@ =~= old(encoder)@ + shadow_passes(*resources, items, cameras, nodes, i as int + 1));
        i += 1;
    }
    assert(cameras_match(cameras, scene_graph@.lights()));
}

proof fn lemma_shadow_passes_prefix(
    resources: FrameResources,
    lights: Seq<(LightNodeView, Seq<u32>)>,
    a: Seq<CameraUniformView>,
    b: Seq<CameraUniformView>,
    render_nodes: Seq<(RenderNodeView, Seq<u32>)>,
    k: int,
)
    requires
        0 <= k <= a.len(),
        k <= b.len(),
        forall|j: int| 0 <= j < k ==> a[j] == b[j],
    ensures
        shadow_passes(resources, lights, a, render_nodes, k) == shadow_passes(resources, lights, b, render_nodes, k),
    decreases k,
{
    if k > 0 {
        lemma_shadow_passes_prefix(resources, lights, a, b, render_nodes, k - 1);
    }
}

/// Records a frame: the shadow passes of the lights, the write of
/// `camera_uniform` into the buffer of the camera, and the forward pass
/// onto `frame_view`. The position of the camera does not change what is
/// drawn.
pub fn draw(
    resources: &FrameResources,
    scene_graph: &SceneGraph,
    encoder: &mut CommandEncoder,
    frame_view: TextureView,
    camera_uniform: CameraUniform,
    camera_position: &Vec3,
)
    ensures
        exists|cameras: Seq<CameraUniformView>|
            cameras_match(cameras, scene_graph@.lights()) && final(encoder)@ == old(encoder)@ + frame(
                *resources,
                scene_graph@,
                frame_view,
                camera_uniform@,
                cameras,
            ),
{
    render_shadow_pass(resources, scene_graph, encoder);
    let ghost cameras = choose|cameras: Seq<CameraUniformView>|
        cameras_match(cameras, scene_graph@.lights()) && encoder@ == old(encoder)@ + shadow_passes(
            *resources,
            scene_graph@.lights(),
            cameras,
            scene_graph@.render_nodes(),
            scene_graph@.lights().len() as int,
        );
    encoder.write_buffer(&resources.camera_buffer, 0, UniformData::Camera(camera_uniform));
    let mut rpass = encoder.begin_render_pass(
        RenderPassDescriptor {
            color_attachment: Some(
                ColorAttachment {
                    view: frame_view,
                    load: ColorLoadOp::Clear(
                        ClearColor {
                            r: 0x3fb9_9999_9999_999a,
                            g: 0x3fc9_9999_9999_999a,
                            b: 0x3fd3_3333_3333_3333,
                            a: 0x3ff0_0000_0000_0000,
                        },
                    ),
                    store: StoreOp::Store,
                },
            ),
            depth_stencil_attachment: Some(
                DepthAttachment { view: resources.depth_view, load: DepthLoadOp::Clear(ONE), store: StoreOp::Discard },
            ),
        },
    );
    rpass.set_pipeline(&resources.render_pipeline);
    rpass.set_bind_group(CAMERA_BIND_GROUP_INDEX, Some(resources.camera_bind_group));
    rpass.set_bind_group(MODEL_BIND_GROUP_INDEX, Some(resources.model_matrix_bind_group));
    match scene_graph.light_bind_group {
        Some(light_bind_group) => {
            rpass.set_bind_group(LIGHT_BIND_GROUP_INDEX, Some(light_bind_group));
        },
        None => {},
    }
    rpass.draw_scenegraph(scene_graph, MATERIAL_BIND_GROUP_INDEX, &resources.model_matrix_buffer, camera_position);
    assert(rpass@.push(FrameCommandView::EndRenderPass) =~= forward_pass(*resources, scene_graph@, frame_view));
    encoder.end_render_pass(rpass);
    assert(encoder@ =~= old(encoder)@ + frame(*resources, scene_graph@, frame_view, camera_uniform@, cameras));
}

} // verus!
