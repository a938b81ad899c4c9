use scene_renderer::device::Device;
use scene_renderer::light::ShadowMap;
use scene_renderer::math::{Mat4, Vec3};
use scene_renderer::model::Vertex;
use scene_renderer::scenegraph::{GroupNode, Node, SceneGraph};
use scene_renderer::iterators::SceneGraphRenderNodeIterator;

fn bits(m: glam::Mat4) -> Mat4 {
    Mat4 { cols: m.to_cols_array().map(f32::to_bits) }
}

fn floats(m: Mat4) -> glam::Mat4 {
    glam::Mat4::from_cols_array(&m.cols.map(f32::from_bits))
}

fn vertex(x: f32, y: f32, z: f32) -> Vertex {
    Vertex {
        pos: [x.to_bits(), y.to_bits(), z.to_bits()],
        tex_coords: [0.0f32.to_bits(), 0.0f32.to_bits()],
        normal: [0.0f32.to_bits(), 1.0f32.to_bits(), 0.0f32.to_bits()],
    }
}

#[test]
fn world_transform_composes_root_to_leaf() {
    let mut device = Device::new();
    let shadow_map = ShadowMap::create_shadow_map(&mut device, None).unwrap();
    let mut graph = SceneGraph::new(true, shadow_map);
    match graph.find_child_mut(None).unwrap() {
        Node::GroupNode(root) => {
            root.set_matrix(bits(glam::Mat4::from_translation(glam::Vec3::new(1.0, 0.0, 0.0))));
            let mut child = GroupNode::new("child".to_string());
            child.set_matrix(bits(glam::Mat4::from_translation(glam::Vec3::new(0.0, 2.0, 0.0))));
            root.add_child(Node::GroupNode(child));
        }
        _ => panic!("the root is a group"),
    }
    graph
        .add_render_node(
            Some("child"),
            "leaf".to_string(),
            &mut device,
            &[vertex(0.0, 0.0, 0.0)],
            &[0],
            Mat4::identity(),
        )
        .unwrap();
    let mut iterator = SceneGraphRenderNodeIterator::new(&graph);
    let (node, world) = iterator.next().unwrap();
    assert_eq!(node.node.name, "leaf");
    let moved = floats(world).transform_point3(glam::Vec3::new(0.0, 0.0, 0.0));
    assert_eq!(moved, glam::Vec3::new(1.0, 2.0, 0.0));
    assert!(iterator.next().is_none());
    assert!(iterator.next().is_none());
    let _ = Vec3::unit_y();
}

fn new_scene(device: &mut Device) -> SceneGraph {
    let shadow_map = ShadowMap::create_shadow_map(device, None).unwrap();
    SceneGraph::new(true, shadow_map)
}

fn vertex_contents(command: &scene_renderer::device::DeviceCommand) -> Vec<[f32; 3]> {
    match command {
        scene_renderer::device::DeviceCommand::CreateBufferInit { descriptor, .. } => match &descriptor.contents {
            scene_renderer::device::BufferContents::Vertices(vertices) => {
                vertices.iter().map(|v| v.pos.map(f32::from_bits)).collect()
            }
            _ => panic!("the buffer holds vertices"),
        },
        _ => panic!("the command makes a buffer"),
    }
}

#[test]
fn identity_and_translation_are_those_of_glam() {
    assert_eq!(floats(Mat4::identity()), glam::Mat4::IDENTITY);
    let t = Vec3 { x: 1.5f32.to_bits(), y: (-2.0f32).to_bits(), z: 0.25f32.to_bits() };
    assert_eq!(
        floats(Mat4::from_translation(t)),
        glam::Mat4::from_translation(glam::Vec3::new(1.5, -2.0, 0.25))
    );
}

#[test]
fn vectors_keep_their_components() {
    let v = Vec3::from_array([1.0f32.to_bits(), 2.0f32.to_bits(), 3.0f32.to_bits()]);
    assert_eq!(v.to_array(), [1.0f32.to_bits(), 2.0f32.to_bits(), 3.0f32.to_bits()]);
    let w = v.extend(4.0f32.to_bits());
    assert_eq!(f32::from_bits(w.w), 4.0);
    let t = w.truncate();
    assert_eq!((t.x, t.y, t.z), (v.x, v.y, v.z));
    let y = Vec3::unit_y();
    assert_eq!([y.x, y.y, y.z].map(f32::from_bits), [0.0, 1.0, 0.0]);
}

#[test]
fn world_transform_multiplies_in_order_from_the_root() {
    let root_matrix = glam::Mat4::from_rotation_z(0.5);
    let group_matrix = glam::Mat4::from_translation(glam::Vec3::new(3.0, 0.0, 0.0));
    let leaf_matrix = glam::Mat4::from_scale(glam::Vec3::new(2.0, 2.0, 2.0));
    let mut device = Device::new();
    let mut graph = new_scene(&mut device);
    match graph.find_child_mut(None).unwrap() {
        Node::GroupNode(root) => {
            root.set_matrix(bits(root_matrix));
            let mut child = GroupNode::new("child".to_string());
            child.set_matrix(bits(group_matrix));
            root.add_child(Node::GroupNode(child));
        }
        _ => panic!("the root is a group"),
    }
    graph
        .add_render_node(
            Some("child"),
            "leaf".to_string(),
            &mut device,
            &[vertex(1.0, 0.0, 0.0)],
            &[0],
            bits(leaf_matrix),
        )
        .unwrap();
    let mut iterator = SceneGraphRenderNodeIterator::new(&graph);
    let (_, world) = iterator.next().unwrap();
    let expected = ((glam::Mat4::IDENTITY * root_matrix) * group_matrix) * leaf_matrix;
    assert_eq!(floats(world), expected);
    assert_ne!(floats(world), leaf_matrix);
}

#[test]
fn set_matrix_twice_gives_the_same_buffer_contents() {
    let mut device = Device::new();
    let mut graph = new_scene(&mut device);
    graph
        .add_render_node(
            None,
            "mesh".to_string(),
            &mut device,
            &[vertex(1.0, 2.0, 3.0), vertex(-1.0, 0.5, 0.0)],
            &[0, 1, 0],
            Mat4::identity(),
        )
        .unwrap();
    device.take_commands();
    let matrix = bits(
        glam::Mat4::from_translation(glam::Vec3::new(10.0, 0.0, -1.0)) * glam::Mat4::from_rotation_y(0.3),
    );
    let mut handles = Vec::new();
    for _ in 0..2 {
        match graph.find_child_mut(Some("mesh")).unwrap() {
            Node::RenderNode(render) => {
                render.set_matrix(matrix, &mut device).unwrap();
                handles.push(render.vertex_buffer);
            }
            _ => panic!("the node is a render node"),
        }
    }
    assert_ne!(handles[0], handles[1]);
    let commands = device.take_commands();
    assert_eq!(commands.len(), 4);
    let first = vertex_contents(&commands[0]);
    let second = vertex_contents(&commands[2]);
    assert_eq!(first, second);
    let m = floats(matrix);
    assert_eq!(
        first,
        vec![
            m.transform_point3(glam::Vec3::new(1.0, 2.0, 3.0)).to_array(),
            m.transform_point3(glam::Vec3::new(-1.0, 0.5, 0.0)).to_array(),
        ]
    );
    assert_ne!(first[0], [1.0, 2.0, 3.0]);
    match graph.find_child("mesh").unwrap() {
        Node::RenderNode(render) => {
            assert_eq!(render.vertices[0].pos.map(f32::from_bits), [1.0, 2.0, 3.0]);
            assert_eq!(floats(render.node.matrix), m);
        }
        _ => panic!("the node is a render node"),
    }
}

#[test]
fn set_matrix_lets_go_of_the_buffer_it_replaces() {
    let mut device = Device::new();
    let mut graph = new_scene(&mut device);
    graph
        .add_render_node(None, "mesh".to_string(), &mut device, &[vertex(0.0, 0.0, 0.0)], &[0], Mat4::identity())
        .unwrap();
    device.take_commands();
    let (old_buffer, new_buffer) = match graph.find_child_mut(Some("mesh")).unwrap() {
        Node::RenderNode(render) => {
            let old_buffer = render.vertex_buffer;
            render.set_matrix(Mat4::identity(), &mut device).unwrap();
            (old_buffer, render.vertex_buffer)
        }
        _ => panic!("the node is a render node"),
    };
    let commands = device.take_commands();
    match &commands[0] {
        scene_renderer::device::DeviceCommand::CreateBufferInit { buffer, descriptor } => {
            assert_eq!(*buffer, new_buffer);
            assert_eq!(descriptor.label, "mesh Vertex Buffer");
            assert!(descriptor.usage.vertex && !descriptor.usage.index);
        }
        _ => panic!("the first command makes the new buffer"),
    }
    match &commands[1] {
        scene_renderer::device::DeviceCommand::Release { id } => assert_eq!(*id, old_buffer.id),
        _ => panic!("the second command lets the old buffer go"),
    }
}

#[test]
fn set_matrix_without_handles_changes_nothing() {
    let mut device = Device::starting_at(u64::MAX - 6);
    let mut graph = new_scene(&mut device);
    graph
        .add_render_node(None, "mesh".to_string(), &mut device, &[vertex(0.0, 0.0, 0.0)], &[0], Mat4::identity())
        .unwrap();
    assert_eq!(device.remaining(), 0);
    match graph.find_child_mut(Some("mesh")).unwrap() {
        Node::RenderNode(render) => {
            let before = render.vertex_buffer;
            let moved = render.set_matrix(bits(glam::Mat4::from_scale(glam::Vec3::splat(2.0))), &mut device);
            assert_eq!(moved, Err(scene_renderer::error::SceneError::ResourceExhaustion));
            assert_eq!(render.vertex_buffer, before);
            assert_eq!(floats(render.node.matrix), glam::Mat4::IDENTITY);
        }
        _ => panic!("the node is a render node"),
    }
}

#[test]
fn transformed_vertex_keeps_texture_coordinates_and_normal() {
    let v = Vertex {
        pos: [1.0f32.to_bits(), 1.0f32.to_bits(), 1.0f32.to_bits()],
        tex_coords: [0.25f32.to_bits(), 0.75f32.to_bits()],
        normal: [0.0f32.to_bits(), 0.0f32.to_bits(), 1.0f32.to_bits()],
    };
    let moved = v.transformed(&bits(glam::Mat4::from_translation(glam::Vec3::new(1.0, 2.0, 3.0))));
    assert_eq!(moved.pos.map(f32::from_bits), [2.0, 3.0, 4.0]);
    assert_eq!(moved.tex_coords, v.tex_coords);
    assert_eq!(moved.normal, v.normal);
    let all = scene_renderer::model::transform_vertices(
        &vec![v, v],
        &bits(glam::Mat4::from_scale(glam::Vec3::new(2.0, 3.0, 4.0))),
    );
    assert_eq!(all.len(), 2);
    assert_eq!(all[1].pos.map(f32::from_bits), [2.0, 3.0, 4.0]);
}
