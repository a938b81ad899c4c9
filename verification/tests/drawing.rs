use scene_renderer::animation::rotate_sun;
use scene_renderer::camera::CameraUniform;
use scene_renderer::device::{BufferContents, Device, DeviceCommand};
use scene_renderer::draw::{DrawScenegraph, FrameCommand, RenderPass, UniformData};
use scene_renderer::error::SceneError;
use scene_renderer::frame::{draw, record_shadow_pass, render_shadow_pass, CommandEncoder, FrameResources};
use scene_renderer::gpu::{
    BindGroup, BindGroupLayout, Buffer, ColorLoadOp, DepthLoadOp, IndexFormat, RenderPassDescriptor,
    RenderPipeline, StoreOp, TextureView,
};
use scene_renderer::light::{Color, Light, ShadowMap};
use scene_renderer::math::{Mat4, Vec3};
use scene_renderer::model::{Material, Mesh, Model, ObjMaterial, Vertex};
use scene_renderer::scenegraph::{GroupNode, Node, SceneGraph};

fn vertex(x: f32, y: f32, z: f32) -> Vertex {
    Vertex {
        pos: [x.to_bits(), y.to_bits(), z.to_bits()],
        tex_coords: [0.0f32.to_bits(), 0.0f32.to_bits()],
        normal: [0.0f32.to_bits(), 1.0f32.to_bits(), 0.0f32.to_bits()],
    }
}

fn vec3(x: f32, y: f32, z: f32) -> Vec3 {
    Vec3 { x: x.to_bits(), y: y.to_bits(), z: z.to_bits() }
}

fn white() -> Color {
    Color { r: 1.0f32.to_bits(), g: 1.0f32.to_bits(), b: 1.0f32.to_bits(), a: 1.0f32.to_bits() }
}

fn bits(m: glam::Mat4) -> Mat4 {
    Mat4 { cols: m.to_cols_array().map(f32::to_bits) }
}

fn floats(m: Mat4) -> glam::Mat4 {
    glam::Mat4::from_cols_array(&m.cols.map(f32::from_bits))
}

fn resources() -> FrameResources {
    FrameResources {
        render_pipeline: RenderPipeline { id: 1001 },
        shadow_pipeline: RenderPipeline { id: 1002 },
        depth_view: TextureView { id: 1003 },
        model_matrix_buffer: Buffer { id: 1004 },
        model_matrix_bind_group: BindGroup { id: 1005 },
        camera_buffer: Buffer { id: 1006 },
        camera_bind_group: BindGroup { id: 1007 },
        sp_camera_buffer: Buffer { id: 1008 },
        sp_camera_bind_group: BindGroup { id: 1009 },
    }
}

fn camera() -> CameraUniform {
    CameraUniform {
        view_proj: bits(glam::Mat4::from_translation(glam::Vec3::new(0.0, 0.0, -30.0))),
        position: [0.0f32.to_bits(), 1.0f32.to_bits(), 30.0f32.to_bits(), 1.0f32.to_bits()],
    }
}

fn new_scene(device: &mut Device) -> SceneGraph {
    let shadow_map = ShadowMap::create_shadow_map(device, None).unwrap();
    SceneGraph::new(true, shadow_map)
}

fn two_mesh_scene(device: &mut Device) -> SceneGraph {
    let mut graph = new_scene(device);
    match graph.find_child_mut(None).unwrap() {
        Node::GroupNode(root) => {
            let mut group = GroupNode::new("scene".to_string());
            group.set_matrix(bits(glam::Mat4::from_translation(glam::Vec3::new(0.0, 1.0, 0.0))));
            root.add_child(Node::GroupNode(group));
        }
        _ => panic!("the root is a group"),
    }
    graph
        .add_render_node(Some("scene"), "ground".to_string(), device, &[vertex(0.0, 0.0, 0.0)], &[0, 0, 0], Mat4::identity())
        .unwrap();
    graph
        .add_render_node(
            Some("scene"),
            "house".to_string(),
            device,
            &[vertex(0.0, 0.0, 0.0)],
            &[0, 0, 0, 0, 0, 0],
            bits(glam::Mat4::from_translation(glam::Vec3::new(2.0, 0.0, 0.0))),
        )
        .unwrap();
    graph
}

fn render_node<'a>(graph: &'a SceneGraph, name: &str) -> &'a scene_renderer::scenegraph::RenderNode {
    match graph.find_child(name).unwrap() {
        Node::RenderNode(r) => r,
        _ => panic!("the node is a render node"),
    }
}

fn is_draw(command: &FrameCommand, count: u32) -> bool {
    matches!(
        command,
        FrameCommand::DrawIndexed { first_index: 0, end_index, base_vertex: 0, first_instance: 0, end_instance: 1 }
            if *end_index == count
    )
}

fn model_written(command: &FrameCommand, buffer: Buffer) -> glam::Mat4 {
    match command {
        FrameCommand::WriteBuffer { buffer: target, offset: 0, data: UniformData::Model(m) } => {
            assert_eq!(*target, buffer);
            floats(m.view_proj)
        }
        _ => panic!("the command writes a node transform"),
    }
}

#[test]
fn an_opened_pass_begins_with_its_targets() {
    let descriptor = RenderPassDescriptor { color_attachment: None, depth_stencil_attachment: None };
    let mut pass = RenderPass::begin(descriptor);
    pass.set_pipeline(&RenderPipeline { id: 3 });
    pass.set_bind_group(1, None);
    pass.set_vertex_buffer(0, Buffer { id: 4 });
    pass.set_index_buffer(Buffer { id: 5 }, IndexFormat::Uint32);
    pass.draw_indexed(9);
    let commands = pass.end();
    assert_eq!(commands.len(), 7);
    assert!(matches!(commands[0], FrameCommand::BeginRenderPass(d) if d == descriptor));
    assert!(matches!(commands[1], FrameCommand::SetPipeline(RenderPipeline { id: 3 })));
    assert!(matches!(commands[2], FrameCommand::SetBindGroup { index: 1, bind_group: None }));
    assert!(matches!(commands[3], FrameCommand::SetVertexBuffer { slot: 0, buffer: Buffer { id: 4 } }));
    assert!(matches!(
        commands[4],
        FrameCommand::SetIndexBuffer { buffer: Buffer { id: 5 }, index_format: IndexFormat::Uint32 }
    ));
    assert!(is_draw(&commands[5], 9));
    assert!(matches!(commands[6], FrameCommand::EndRenderPass));
}

#[test]
fn draw_scenegraph_writes_each_world_transform_before_its_draw() {
    let mut device = Device::new();
    let graph = two_mesh_scene(&mut device);
    let model_buffer = Buffer { id: 900 };
    let mut pass = RenderPass::begin(RenderPassDescriptor { color_attachment: None, depth_stencil_attachment: None });
    pass.draw_scenegraph(&graph, 2, &model_buffer, &vec3(0.0, 0.0, 0.0));
    let commands = pass.end();
    assert_eq!(commands.len(), 1 + 2 * 5 + 1);
    let house = render_node(&graph, "house");
    let ground = render_node(&graph, "ground");
    for (at, node, world, count) in [
        (1, house, glam::Mat4::from_translation(glam::Vec3::new(2.0, 1.0, 0.0)), 6),
        (6, ground, glam::Mat4::from_translation(glam::Vec3::new(0.0, 1.0, 0.0)), 3),
    ] {
        assert!(matches!(commands[at], FrameCommand::SetVertexBuffer { slot: 0, buffer } if buffer == node.vertex_buffer));
        assert!(matches!(
            commands[at + 1],
            FrameCommand::SetIndexBuffer { buffer, index_format: IndexFormat::Uint32 } if buffer == node.index_buffer
        ));
        assert_eq!(model_written(&commands[at + 2], model_buffer), world);
        assert!(matches!(commands[at + 3], FrameCommand::SetBindGroup { index: 2, bind_group: None }));
        assert!(is_draw(&commands[at + 4], count));
    }
}

#[test]
fn draw_scenegraph_binds_the_material_of_a_node() {
    let mut device = Device::new();
    let mut graph = new_scene(&mut device);
    let texture = scene_renderer::model::DiffuseTexture {
        texture: graph.shadow_map.texture,
        view: graph.shadow_map.view,
        sampler: graph.shadow_map.sampler,
    };
    let model = Model {
        meshes: vec![Mesh {
            name: "m".to_string(),
            vertices: vec![vertex(0.0, 0.0, 0.0)],
            indices: vec![0],
            num_elements: 1,
            material: 0,
        }],
        materials: vec![Material {
            name: "mat".to_string(),
            diffuse_texture: Some(texture),
            material: ObjMaterial { ambient: None, diffuse: None, specular: None, shininess: None, dissolve: None },
        }],
    };
    graph
        .add_model_node(None, "thing".to_string(), &mut device, &model, &BindGroupLayout { id: 1 }, Mat4::identity())
        .unwrap();
    let material = render_node(&graph, "thing-m").material_bind_group;
    assert!(material.is_some());
    let mut pass = RenderPass::begin(RenderPassDescriptor { color_attachment: None, depth_stencil_attachment: None });
    pass.draw_scenegraph(&graph, 2, &Buffer { id: 900 }, &vec3(0.0, 0.0, 0.0));
    let commands = pass.end();
    assert!(matches!(commands[4], FrameCommand::SetBindGroup { index: 2, bind_group } if bind_group == material));
}

#[test]
fn draw_scenegraph_vertices_sets_no_material() {
    let mut device = Device::new();
    let graph = two_mesh_scene(&mut device);
    let model_buffer = Buffer { id: 900 };
    let mut pass = RenderPass::begin(RenderPassDescriptor { color_attachment: None, depth_stencil_attachment: None });
    pass.draw_scenegraph_vertices(&graph, &model_buffer);
    let commands = pass.end();
    assert_eq!(commands.len(), 1 + 2 * 4 + 1);
    let house = render_node(&graph, "house");
    assert_eq!(
        model_written(&commands[1], model_buffer),
        glam::Mat4::from_translation(glam::Vec3::new(2.0, 1.0, 0.0))
    );
    assert!(matches!(commands[2], FrameCommand::SetVertexBuffer { slot: 0, buffer } if buffer == house.vertex_buffer));
    assert!(matches!(commands[3], FrameCommand::SetIndexBuffer { buffer, .. } if buffer == house.index_buffer));
    assert!(is_draw(&commands[4], 6));
    assert!(commands.iter().all(|c| !matches!(c, FrameCommand::SetBindGroup { .. })));
}

#[test]
fn a_frame_without_lights_binds_no_lights() {
    let mut device = Device::new();
    let graph = two_mesh_scene(&mut device);
    let mut encoder = CommandEncoder::new();
    let frame_view = TextureView { id: 2000 };
    draw(&resources(), &graph, &mut encoder, frame_view, camera(), &vec3(0.0, 1.0, 30.0));
    let commands = encoder.finish();
    assert_eq!(commands.len(), 1 + 4 + 2 * 5 + 1);
    match commands[0] {
        FrameCommand::WriteBuffer { buffer, offset: 0, data: UniformData::Camera(written) } => {
            assert_eq!(buffer, resources().camera_buffer);
            assert_eq!(written.position, camera().position);
            assert_eq!(written.view_proj.cols, camera().view_proj.cols);
        }
        _ => panic!("the first command writes the camera"),
    }
    match commands[1] {
        FrameCommand::BeginRenderPass(descriptor) => {
            let color = descriptor.color_attachment.unwrap();
            assert_eq!(color.view, frame_view);
            assert_eq!(color.store, StoreOp::Store);
            match color.load {
                ColorLoadOp::Clear(c) => assert_eq!(
                    [c.r, c.g, c.b, c.a].map(f64::from_bits),
                    [0.1, 0.2, 0.3, 1.0]
                ),
                ColorLoadOp::Load => panic!("the frame is cleared"),
            }
            let depth = descriptor.depth_stencil_attachment.unwrap();
            assert_eq!(depth.view, resources().depth_view);
            assert_eq!(depth.load, DepthLoadOp::Clear(1.0f32.to_bits()));
            assert_eq!(depth.store, StoreOp::Discard);
        }
        _ => panic!("the second command opens the forward pass"),
    }
    assert!(matches!(commands[2], FrameCommand::SetPipeline(p) if p == resources().render_pipeline));
    assert!(matches!(
        commands[3],
        FrameCommand::SetBindGroup { index: 0, bind_group } if bind_group == Some(resources().camera_bind_group)
    ));
    assert!(matches!(
        commands[4],
        FrameCommand::SetBindGroup { index: 1, bind_group } if bind_group == Some(resources().model_matrix_bind_group)
    ));
    assert!(matches!(commands[5], FrameCommand::SetVertexBuffer { .. }));
    assert!(commands.iter().all(|c| !matches!(c, FrameCommand::SetBindGroup { index: 3, .. })));
    assert!(matches!(commands[commands.len() - 1], FrameCommand::EndRenderPass));
}

#[test]
fn a_frame_draws_one_shadow_pass_for_each_light_then_the_forward_pass() {
    let mut device = Device::new();
    let mut graph = two_mesh_scene(&mut device);
    let first = Light::new(&mut device, vec3(0.0, 25.0, 30.0), white(), &graph.shadow_map.texture, 0).unwrap();
    let second = Light::new(&mut device, vec3(10.0, 25.0, 30.0), white(), &graph.shadow_map.texture, 1).unwrap();
    let (first_view, second_view) = (first.target_view, second.target_view);
    graph.add_light_node(None, "first".to_string(), &mut device, first).unwrap();
    graph.add_light_node(Some("scene"), "second".to_string(), &mut device, second).unwrap();
    let mut encoder = CommandEncoder::new();
    draw(&resources(), &graph, &mut encoder, TextureView { id: 2000 }, camera(), &vec3(0.0, 1.0, 30.0));
    let commands = encoder.finish();
    let shadow = 5 + 2 * 4 + 1;
    assert_eq!(commands.len(), 2 * shadow + 1 + 5 + 2 * 5 + 1);
    for (at, target, x) in [(0, first_view, 0.0f32), (shadow, second_view, 10.0)] {
        match commands[at] {
            FrameCommand::BeginRenderPass(descriptor) => {
                assert!(descriptor.color_attachment.is_none());
                let depth = descriptor.depth_stencil_attachment.unwrap();
                assert_eq!(depth.view, target);
                assert_eq!(depth.load, DepthLoadOp::Clear(1.0f32.to_bits()));
                assert_eq!(depth.store, StoreOp::Store);
            }
            _ => panic!("a shadow pass is opened"),
        }
        assert!(matches!(commands[at + 1], FrameCommand::SetPipeline(p) if p == resources().shadow_pipeline));
        assert!(matches!(
            commands[at + 2],
            FrameCommand::SetBindGroup { index: 1, bind_group } if bind_group == Some(resources().model_matrix_bind_group)
        ));
        match commands[at + 3] {
            FrameCommand::WriteBuffer { buffer, offset: 0, data: UniformData::Camera(written) } => {
                assert_eq!(buffer, resources().sp_camera_buffer);
                assert_eq!(written.position.map(f32::from_bits), [x, 25.0, 30.0, 1.0]);
            }
            _ => panic!("the camera of the light is written"),
        }
        assert!(matches!(
            commands[at + 4],
            FrameCommand::SetBindGroup { index: 0, bind_group } if bind_group == Some(resources().sp_camera_bind_group)
        ));
        assert!(matches!(commands[at + 5], FrameCommand::WriteBuffer { .. }));
        assert!(matches!(commands[at + shadow - 1], FrameCommand::EndRenderPass));
    }
    let forward = 2 * shadow + 1;
    assert!(matches!(commands[forward - 1], FrameCommand::WriteBuffer { data: UniformData::Camera(_), .. }));
    assert!(matches!(commands[forward], FrameCommand::BeginRenderPass(d) if d.color_attachment.is_some()));
    assert!(matches!(
        commands[forward + 4],
        FrameCommand::SetBindGroup { index: 3, bind_group } if bind_group == graph.light_bind_group
    ));
    assert!(graph.light_bind_group.is_some());
}

#[test]
fn shadow_passes_alone_leave_the_camera_untouched() {
    let mut device = Device::new();
    let mut graph = two_mesh_scene(&mut device);
    let light = Light::new(&mut device, vec3(0.0, 25.0, 30.0), white(), &graph.shadow_map.texture, 0).unwrap();
    graph.add_light_node(None, "sun".to_string(), &mut device, light).unwrap();
    let mut encoder = CommandEncoder::new();
    render_shadow_pass(&resources(), &graph, &mut encoder);
    let commands = encoder.finish();
    assert_eq!(commands.len(), 5 + 2 * 4 + 1);
    assert!(commands.iter().all(|c| !matches!(
        c,
        FrameCommand::WriteBuffer { buffer, .. } if *buffer == resources().camera_buffer
    )));
    let mut encoder = CommandEncoder::new();
    record_shadow_pass(&resources(), &graph, &mut encoder, TextureView { id: 42 }, camera());
    let commands = encoder.finish();
    assert!(matches!(
        commands[0],
        FrameCommand::BeginRenderPass(d) if d.depth_stencil_attachment.unwrap().view == TextureView { id: 42 }
    ));
    match commands[3] {
        FrameCommand::WriteBuffer { data: UniformData::Camera(written), .. } => {
            assert_eq!(written.position, camera().position)
        }
        _ => panic!("the camera is written"),
    }
    let mut encoder = CommandEncoder::new();
    encoder.write_buffer(&Buffer { id: 1 }, 0, UniformData::Camera(camera()));
    let pass = encoder.begin_render_pass(RenderPassDescriptor { color_attachment: None, depth_stencil_attachment: None });
    encoder.end_render_pass(pass);
    assert_eq!(encoder.finish().len(), 3);
}

#[test]
fn rotating_the_sun_moves_the_light_and_its_model() {
    let mut device = Device::new();
    let mut graph = new_scene(&mut device);
    let sun = Light::new(&mut device, vec3(0.0, 25.0, 30.0), white(), &graph.shadow_map.texture, 0).unwrap();
    graph.add_light_node(None, "light".to_string(), &mut device, sun).unwrap();
    let model = Model {
        meshes: vec![Mesh {
            name: "light".to_string(),
            vertices: vec![vertex(0.5, 0.0, 0.0)],
            indices: vec![0],
            num_elements: 1,
            material: 0,
        }],
        materials: vec![Material {
            name: "light".to_string(),
            diffuse_texture: None,
            material: ObjMaterial { ambient: None, diffuse: None, specular: None, shininess: None, dissolve: None },
        }],
    };
    graph
        .add_model_node(
            None,
            "light_model".to_string(),
            &mut device,
            &model,
            &BindGroupLayout { id: 1 },
            bits(glam::Mat4::from_translation(glam::Vec3::new(0.0, 25.0, 30.0))),
        )
        .unwrap();
    graph.on_frame_update();
    let bind_group = graph.light_bind_group;
    device.take_commands();
    rotate_sun(&mut device, &mut graph, 7.0f32.to_bits(), (-4.0f32).to_bits()).unwrap();
    match graph.find_child("light").unwrap() {
        Node::LightNode(light) => {
            assert_eq!(
                [light.light.pos.x, light.light.pos.y, light.light.pos.z].map(f32::from_bits),
                [7.0, 25.0, -4.0]
            );
        }
        _ => panic!("the node is a light"),
    }
    assert_eq!(
        floats(render_node(&graph, "light_model-light").node.matrix),
        glam::Mat4::from_translation(glam::Vec3::new(7.0, 25.0, -4.0))
    );
    assert!(graph.lights_dirty);
    assert_ne!(graph.light_bind_group, bind_group);
    let commands = device.take_commands();
    match &commands[0] {
        DeviceCommand::CreateBufferInit { descriptor, .. } => match &descriptor.contents {
            BufferContents::Vertices(v) => assert_eq!(v[0].pos.map(f32::from_bits), [7.5, 25.0, -4.0]),
            _ => panic!("the buffer holds vertices"),
        },
        _ => panic!("the first command makes the vertex buffer"),
    }
    let light_position = commands
        .iter()
        .find_map(|c| match c {
            DeviceCommand::CreateBufferInit { descriptor, .. } => match &descriptor.contents {
                BufferContents::Lights(l) => Some(l[0].pos.map(f32::from_bits)),
                _ => None,
            },
            _ => None,
        })
        .unwrap();
    assert_eq!(light_position, [7.0, 25.0, -4.0, 1.0]);
}

#[test]
fn rotating_the_sun_without_its_model_only_moves_the_light() {
    let mut device = Device::new();
    let mut graph = new_scene(&mut device);
    let sun = Light::new(&mut device, vec3(0.0, 25.0, 30.0), white(), &graph.shadow_map.texture, 0).unwrap();
    graph.add_light_node(None, "light".to_string(), &mut device, sun).unwrap();
    graph.on_frame_update();
    let bind_group = graph.light_bind_group;
    device.take_commands();
    assert_eq!(rotate_sun(&mut device, &mut graph, 1.0f32.to_bits(), 2.0f32.to_bits()), Ok(()));
    match graph.find_child("light").unwrap() {
        Node::LightNode(light) => assert_eq!(f32::from_bits(light.light.pos.x), 1.0),
        _ => panic!("the node is a light"),
    }
    assert_eq!(graph.light_bind_group, bind_group);
    assert!(!graph.lights_dirty);
    assert!(device.take_commands().is_empty());
}

#[test]
fn rotating_the_sun_needs_a_light_named_light() {
    let mut device = Device::new();
    let mut graph = new_scene(&mut device);
    assert_eq!(rotate_sun(&mut device, &mut graph, 0, 0), Err(SceneError::NotFound));
    graph
        .add_render_node(None, "light".to_string(), &mut device, &[vertex(0.0, 0.0, 0.0)], &[0], Mat4::identity())
        .unwrap();
    assert_eq!(rotate_sun(&mut device, &mut graph, 0, 0), Err(SceneError::WrongNodeKind));
}

#[test]
fn rotating_the_sun_without_handles_changes_nothing() {
    let mut device = Device::new();
    let mut graph = new_scene(&mut device);
    let sun = Light::new(&mut device, vec3(0.0, 25.0, 30.0), white(), &graph.shadow_map.texture, 0).unwrap();
    graph.add_light_node(None, "light".to_string(), &mut device, sun).unwrap();
    graph
        .add_render_node(
            None,
            "light_model-light".to_string(),
            &mut device,
            &[vertex(0.0, 0.0, 0.0)],
            &[0],
            Mat4::identity(),
        )
        .unwrap();
    graph.on_frame_update();
    let bind_group = graph.light_bind_group;
    for left in [0u64, 1, 3] {
        let mut short = Device::starting_at(u64::MAX - left);
        assert_eq!(
            rotate_sun(&mut short, &mut graph, 3.0f32.to_bits(), 4.0f32.to_bits()),
            Err(SceneError::ResourceExhaustion)
        );
        match graph.find_child("light").unwrap() {
            Node::LightNode(light) => assert_eq!(
                [light.light.pos.x, light.light.pos.y, light.light.pos.z].map(f32::from_bits),
                [0.0, 25.0, 30.0]
            ),
            _ => panic!("the node is a light"),
        }
        assert_eq!(floats(render_node(&graph, "light_model-light").node.matrix), glam::Mat4::IDENTITY);
        assert_eq!(graph.light_bind_group, bind_group);
        assert!(!graph.lights_dirty);
        assert!(short.take_commands().is_empty());
        assert_eq!(short.remaining(), left);
    }
    let mut enough = Device::starting_at(u64::MAX - 4);
    assert_eq!(rotate_sun(&mut enough, &mut graph, 3.0f32.to_bits(), 4.0f32.to_bits()), Ok(()));
    assert_eq!(enough.remaining(), 0);
    assert_eq!(
        floats(render_node(&graph, "light_model-light").node.matrix),
        glam::Mat4::from_translation(glam::Vec3::new(3.0, 25.0, 4.0))
    );
}

#[test]
fn rotating_the_sun_with_too_many_lights_changes_nothing() {
    let mut device = Device::new();
    let mut graph = new_scene(&mut device);
    for (number, name) in ["light", "b", "c", "d"].iter().enumerate() {
        let light =
            Light::new(&mut device, vec3(0.0, 25.0, 30.0), white(), &graph.shadow_map.texture, number as u32 % 3)
                .unwrap();
        graph
            .add_child(
                None,
                Node::LightNode(scene_renderer::scenegraph::LightNode {
                    node: scene_renderer::scenegraph::NodeData::new(name.to_string()),
                    light,
                }),
            )
            .unwrap();
    }
    device.take_commands();
    assert_eq!(rotate_sun(&mut device, &mut graph, 3.0f32.to_bits(), 4.0f32.to_bits()), Ok(()));
    match graph.find_child("light").unwrap() {
        Node::LightNode(light) => assert_eq!(f32::from_bits(light.light.pos.x), 3.0),
        _ => panic!("the node is a light"),
    }
    graph
        .add_render_node(
            None,
            "light_model-light".to_string(),
            &mut device,
            &[vertex(0.0, 0.0, 0.0)],
            &[0],
            Mat4::identity(),
        )
        .unwrap();
    device.take_commands();
    assert_eq!(
        rotate_sun(&mut device, &mut graph, 7.0f32.to_bits(), 8.0f32.to_bits()),
        Err(SceneError::CapacityExceeded)
    );
    match graph.find_child("light").unwrap() {
        Node::LightNode(light) => assert_eq!(f32::from_bits(light.light.pos.x), 3.0),
        _ => panic!("the node is a light"),
    }
    assert_eq!(floats(render_node(&graph, "light_model-light").node.matrix), glam::Mat4::IDENTITY);
    assert!(device.take_commands().is_empty());
}
