use scene_renderer::device::Device;
use scene_renderer::error::SceneError;
use scene_renderer::iterators::{SceneGraphLightNodeIterator, SceneGraphRenderNodeIterator};
use scene_renderer::light::{Color, Light, ShadowMap};
use scene_renderer::math::{Mat4, Vec3};
use scene_renderer::model::Vertex;
use scene_renderer::scenegraph::{GroupNode, Node, SceneGraph};

fn vertex(x: f32, y: f32, z: f32) -> Vertex {
    Vertex {
        pos: [x.to_bits(), y.to_bits(), z.to_bits()],
        tex_coords: [0.0f32.to_bits(), 0.0f32.to_bits()],
        normal: [0.0f32.to_bits(), 1.0f32.to_bits(), 0.0f32.to_bits()],
    }
}

fn vec3(x: f32, y: f32, z: f32) -> Vec3 {
    Vec3 { x: x.to_bits(), y: y.to_bits(), z: z.to_bits() }
}

fn white() -> Color {
    Color { r: 1.0f32.to_bits(), g: 1.0f32.to_bits(), b: 1.0f32.to_bits(), a: 1.0f32.to_bits() }
}

fn floats(m: Mat4) -> glam::Mat4 {
    glam::Mat4::from_cols_array(&m.cols.map(f32::from_bits))
}

fn new_scene(device: &mut Device) -> SceneGraph {
    let shadow_map = ShadowMap::create_shadow_map(device, None).unwrap();
    SceneGraph::new(true, shadow_map)
}

fn add_group(graph: &mut SceneGraph, parent: Option<&str>, name: &str) {
    match graph.find_child_mut(parent).unwrap() {
        Node::GroupNode(group) => group.add_child(Node::GroupNode(GroupNode::new(name.to_string()))),
        _ => panic!("the parent is a group"),
    }
}

fn add_leaf(graph: &mut SceneGraph, device: &mut Device, parent: Option<&str>, name: &str) {
    graph
        .add_render_node(parent, name.to_string(), device, &[vertex(0.0, 0.0, 0.0)], &[0], Mat4::identity())
        .unwrap();
}

fn name_of(node: &Node) -> &str {
    match node {
        Node::GroupNode(g) => &g.node.name,
        Node::RenderNode(r) => &r.node.name,
        Node::LightNode(l) => &l.node.name,
    }
}

#[test]
fn new_scene_has_a_root_group_named_root() {
    let mut device = Device::new();
    let graph = new_scene(&mut device);
    match &graph.root {
        Node::GroupNode(root) => {
            assert_eq!(root.node.name, "root");
            assert_eq!(floats(root.node.matrix), glam::Mat4::IDENTITY);
            assert!(root.children.is_empty());
        }
        _ => panic!("the root is a group"),
    }
    assert!(graph.light_bind_group.is_none());
    assert!(graph.light_bind_group_layout.is_none());
    assert!(!graph.lights_dirty);
    assert!(graph.supports_storage_resources);
}

#[test]
fn end_to_end_scene_with_two_meshes_and_a_sun() {
    let mut device = Device::new();
    let mut graph = new_scene(&mut device);
    add_group(&mut graph, None, "scene");
    add_leaf(&mut graph, &mut device, Some("scene"), "ground");
    add_leaf(&mut graph, &mut device, Some("scene"), "house");
    let sun = Light::new(&mut device, vec3(0.0, 25.0, 30.0), white(), &graph.shadow_map.texture, 0).unwrap();
    graph.add_light_node(None, "sun".to_string(), &mut device, sun).unwrap();

    let mut lights = SceneGraphLightNodeIterator::new(&graph);
    let (light, world) = lights.next().unwrap();
    assert_eq!(light.node.name, "sun");
    assert_eq!(floats(world), glam::Mat4::IDENTITY);
    assert_eq!(f32::from_bits(light.light.pos.x), 0.0);
    assert_eq!(f32::from_bits(light.light.pos.y), 25.0);
    assert_eq!(f32::from_bits(light.light.pos.z), 30.0);
    assert!(lights.next().is_none());

    let mut renders = SceneGraphRenderNodeIterator::new(&graph);
    assert_eq!(renders.next().unwrap().0.node.name, "house");
    assert_eq!(renders.next().unwrap().0.node.name, "ground");
    assert!(renders.next().is_none());

    assert!(graph.light_bind_group.is_some());
    assert!(graph.light_bind_group_layout.is_some());
    assert!(graph.lights_dirty);
}

#[test]
fn render_iterator_yields_every_leaf_once_and_restarts_alike() {
    let mut device = Device::new();
    let mut graph = new_scene(&mut device);
    add_group(&mut graph, None, "a");
    add_group(&mut graph, None, "b");
    add_leaf(&mut graph, &mut device, Some("a"), "a1");
    add_leaf(&mut graph, &mut device, Some("a"), "a2");
    add_leaf(&mut graph, &mut device, Some("b"), "b1");
    add_leaf(&mut graph, &mut device, None, "top");
    let sun = Light::new(&mut device, vec3(0.0, 1.0, 0.0), white(), &graph.shadow_map.texture, 0).unwrap();
    graph.add_light_node(Some("b"), "sun".to_string(), &mut device, sun).unwrap();

    let mut first = Vec::new();
    let mut iterator = SceneGraphRenderNodeIterator::new(&graph);
    while let Some((node, _)) = iterator.next() {
        first.push(node.node.name.clone());
    }
    assert!(iterator.next().is_none());
    assert_eq!(first, vec!["top", "b1", "a2", "a1"]);

    let mut second = Vec::new();
    let mut iterator = SceneGraphRenderNodeIterator::new(&graph);
    while let Some((node, _)) = iterator.next() {
        second.push(node.node.name.clone());
    }
    assert_eq!(first, second);

    let collected: Vec<String> = graph.get_render_nodes().iter().map(|(n, _)| n.node.name.clone()).collect();
    assert_eq!(collected, first);
    assert_eq!(graph.get_light_nodes().len(), 1);
}

#[test]
fn find_child_prefers_the_sibling_added_last() {
    let mut device = Device::new();
    let mut graph = new_scene(&mut device);
    graph
        .add_render_node(None, "twin".to_string(), &mut device, &[vertex(1.0, 0.0, 0.0)], &[0], Mat4::identity())
        .unwrap();
    graph
        .add_render_node(None, "twin".to_string(), &mut device, &[vertex(2.0, 0.0, 0.0)], &[0], Mat4::identity())
        .unwrap();
    match graph.find_child("twin").unwrap() {
        Node::RenderNode(found) => assert_eq!(f32::from_bits(found.vertices[0].pos[0]), 2.0),
        _ => panic!("a render node carries the name"),
    }
}

#[test]
fn find_child_mut_prefers_the_sibling_added_last() {
    let mut device = Device::new();
    let mut graph = new_scene(&mut device);
    graph
        .add_render_node(None, "twin".to_string(), &mut device, &[vertex(1.0, 0.0, 0.0)], &[0], Mat4::identity())
        .unwrap();
    graph
        .add_render_node(None, "twin".to_string(), &mut device, &[vertex(2.0, 0.0, 0.0)], &[0], Mat4::identity())
        .unwrap();
    match graph.find_child_mut(Some("twin")).unwrap() {
        Node::RenderNode(found) => assert_eq!(f32::from_bits(found.vertices[0].pos[0]), 2.0),
        _ => panic!("a render node carries the name"),
    }
}

#[test]
fn both_searches_find_the_same_node_of_two_with_one_name() {
    let mut device = Device::new();
    let mut graph = new_scene(&mut device);
    let corner = [vertex(0.0, 0.0, 0.0)];
    graph.add_render_node(None, "dup".to_string(), &mut device, &corner, &[0], Mat4::identity()).unwrap();
    graph.add_render_node(None, "dup".to_string(), &mut device, &corner, &[0, 0], Mat4::identity()).unwrap();
    let read = match graph.find_child("dup").unwrap() {
        Node::RenderNode(found) => (found.num_elements, found.vertex_buffer),
        _ => panic!("a render node carries the name"),
    };
    let changed = match graph.find_child_mut(Some("dup")).unwrap() {
        Node::RenderNode(found) => (found.num_elements, found.vertex_buffer),
        _ => panic!("a render node carries the name"),
    };
    assert_eq!(read.0, 2);
    assert_eq!(changed, read);
}

#[test]
fn find_child_walks_the_whole_tree() {
    let mut device = Device::new();
    let mut graph = new_scene(&mut device);
    add_group(&mut graph, None, "outer");
    add_group(&mut graph, Some("outer"), "inner");
    add_leaf(&mut graph, &mut device, Some("inner"), "deep");
    assert_eq!(name_of(graph.find_child("deep").unwrap()), "deep");
    assert_eq!(name_of(graph.find_child("inner").unwrap()), "inner");
    assert_eq!(name_of(graph.find_child("root").unwrap()), "root");
    assert!(graph.find_child("missing").is_none());
    assert_eq!(name_of(graph.find_child_mut(Some("deep")).unwrap()), "deep");
    assert_eq!(name_of(graph.find_child_mut(Some("root")).unwrap()), "root");
    assert_eq!(name_of(graph.find_child_mut(None).unwrap()), "root");
    assert!(graph.find_child_mut(Some("missing")).is_none());
}

#[test]
fn both_searches_look_into_a_later_group_before_an_earlier_sibling() {
    let mut device = Device::new();
    let mut graph = new_scene(&mut device);
    graph
        .add_render_node(None, "x".to_string(), &mut device, &[vertex(1.0, 0.0, 0.0)], &[0], Mat4::identity())
        .unwrap();
    add_group(&mut graph, None, "later");
    graph
        .add_render_node(Some("later"), "x".to_string(), &mut device, &[vertex(2.0, 0.0, 0.0)], &[0], Mat4::identity())
        .unwrap();
    match graph.find_child("x").unwrap() {
        Node::RenderNode(found) => assert_eq!(f32::from_bits(found.vertices[0].pos[0]), 2.0),
        _ => panic!("a render node carries the name"),
    }
    match graph.find_child_mut(Some("x")).unwrap() {
        Node::RenderNode(found) => assert_eq!(f32::from_bits(found.vertices[0].pos[0]), 2.0),
        _ => panic!("a render node carries the name"),
    }
    graph
        .add_render_node(None, "x".to_string(), &mut device, &[vertex(3.0, 0.0, 0.0)], &[0], Mat4::identity())
        .unwrap();
    match graph.find_child_mut(Some("x")).unwrap() {
        Node::RenderNode(found) => assert_eq!(f32::from_bits(found.vertices[0].pos[0]), 3.0),
        _ => panic!("a render node carries the name"),
    }
    match graph.find_child("x").unwrap() {
        Node::RenderNode(found) => assert_eq!(f32::from_bits(found.vertices[0].pos[0]), 3.0),
        _ => panic!("a render node carries the name"),
    }
}

#[test]
fn a_child_goes_under_the_group_that_the_walk_reaches_first() {
    let mut device = Device::new();
    let mut graph = new_scene(&mut device);
    add_group(&mut graph, None, "g");
    add_group(&mut graph, None, "g");
    add_leaf(&mut graph, &mut device, Some("g"), "leaf");
    match &graph.root {
        Node::GroupNode(root) => {
            match (&root.children[0], &root.children[1]) {
                (Node::GroupNode(first), Node::GroupNode(second)) => {
                    assert!(first.children.is_empty());
                    assert_eq!(second.children.len(), 1);
                }
                _ => panic!("both children are groups"),
            }
        }
        _ => panic!("the root is a group"),
    }
}

#[test]
fn find_child_mut_searches_the_group_added_last_first() {
    let mut device = Device::new();
    let mut graph = new_scene(&mut device);
    add_group(&mut graph, None, "first");
    add_group(&mut graph, None, "second");
    graph
        .add_render_node(Some("first"), "x".to_string(), &mut device, &[vertex(1.0, 0.0, 0.0)], &[0], Mat4::identity())
        .unwrap();
    graph
        .add_render_node(Some("second"), "x".to_string(), &mut device, &[vertex(2.0, 0.0, 0.0)], &[0], Mat4::identity())
        .unwrap();
    match graph.find_child_mut(Some("x")).unwrap() {
        Node::RenderNode(found) => assert_eq!(f32::from_bits(found.vertices[0].pos[0]), 2.0),
        _ => panic!("a render node carries the name"),
    }
}

#[test]
fn a_child_can_be_added_under_the_root_by_its_name() {
    let mut device = Device::new();
    let mut graph = new_scene(&mut device);
    add_leaf(&mut graph, &mut device, Some("root"), "leaf");
    match &graph.root {
        Node::GroupNode(root) => assert_eq!(name_of(&root.children[0]), "leaf"),
        _ => panic!("the root is a group"),
    }
}

#[test]
fn children_are_kept_in_the_order_in_which_they_were_added() {
    let mut device = Device::new();
    let mut graph = new_scene(&mut device);
    add_leaf(&mut graph, &mut device, None, "one");
    add_group(&mut graph, None, "two");
    add_leaf(&mut graph, &mut device, None, "three");
    match &graph.root {
        Node::GroupNode(root) => {
            let names: Vec<&str> = root.children.iter().map(name_of).collect();
            assert_eq!(names, vec!["one", "two", "three"]);
        }
        _ => panic!("the root is a group"),
    }
}

#[test]
fn adding_under_a_missing_parent_is_not_found() {
    let mut device = Device::new();
    let mut graph = new_scene(&mut device);
    let before = device.next_id();
    let added = graph.add_render_node(
        Some("nowhere"),
        "leaf".to_string(),
        &mut device,
        &[vertex(0.0, 0.0, 0.0)],
        &[0],
        Mat4::identity(),
    );
    assert_eq!(added, Err(SceneError::NotFound));
    assert_eq!(device.next_id(), before);
    assert!(graph.get_render_nodes().is_empty());
}

#[test]
fn adding_under_a_leaf_is_wrong_node_kind() {
    let mut device = Device::new();
    let mut graph = new_scene(&mut device);
    add_leaf(&mut graph, &mut device, None, "leaf");
    let added = graph.add_render_node(
        Some("leaf"),
        "other".to_string(),
        &mut device,
        &[vertex(0.0, 0.0, 0.0)],
        &[0],
        Mat4::identity(),
    );
    assert_eq!(added, Err(SceneError::WrongNodeKind));
    assert_eq!(graph.get_render_nodes().len(), 1);
    let sun = Light::new(&mut device, vec3(0.0, 1.0, 0.0), white(), &graph.shadow_map.texture, 0).unwrap();
    assert_eq!(
        graph.add_light_node(Some("leaf"), "sun".to_string(), &mut device, sun),
        Err(SceneError::WrongNodeKind)
    );
    assert!(graph.light_bind_group.is_none());
}

#[test]
fn a_device_without_handles_is_resource_exhaustion() {
    let mut device = Device::starting_at(u64::MAX - 5);
    let mut graph = new_scene(&mut device);
    assert_eq!(device.remaining(), 2);
    let added = graph.add_render_node(
        None,
        "leaf".to_string(),
        &mut device,
        &[vertex(0.0, 0.0, 0.0)],
        &[0],
        Mat4::identity(),
    );
    assert_eq!(added, Err(SceneError::ResourceExhaustion));
    assert!(graph.get_render_nodes().is_empty());
    assert_eq!(device.remaining(), 2);
    let mut empty = Device::starting_at(u64::MAX - 2);
    assert!(matches!(ShadowMap::create_shadow_map(&mut empty, None), Err(SceneError::ResourceExhaustion)));
}

#[test]
fn a_fourth_light_is_capacity_exceeded() {
    let mut device = Device::new();
    let mut graph = new_scene(&mut device);
    for number in 0..3u32 {
        let light =
            Light::new(&mut device, vec3(0.0, 1.0, 0.0), white(), &graph.shadow_map.texture, number).unwrap();
        graph.add_light_node(None, format!("light{number}"), &mut device, light).unwrap();
    }
    assert!(matches!(
        Light::new(&mut device, vec3(0.0, 1.0, 0.0), white(), &graph.shadow_map.texture, 3),
        Err(SceneError::CapacityExceeded)
    ));
    let spare = Light::new(&mut device, vec3(0.0, 1.0, 0.0), white(), &graph.shadow_map.texture, 2).unwrap();
    let bind_group = graph.light_bind_group;
    assert_eq!(
        graph.add_light_node(None, "light3".to_string(), &mut device, spare),
        Err(SceneError::CapacityExceeded)
    );
    assert_eq!(graph.get_light_nodes().len(), 3);
    assert_eq!(graph.light_bind_group, bind_group);
}

#[test]
fn more_lights_than_layers_cannot_be_bound() {
    let mut device = Device::new();
    let mut graph = new_scene(&mut device);
    for number in 0..4u32 {
        let light =
            Light::new(&mut device, vec3(0.0, 1.0, 0.0), white(), &graph.shadow_map.texture, number % 3).unwrap();
        match graph.find_child_mut(None).unwrap() {
            Node::GroupNode(root) => root.add_child(Node::LightNode(scene_renderer::scenegraph::LightNode {
                node: scene_renderer::scenegraph::NodeData::new(format!("light{number}")),
                light,
            })),
            _ => panic!("the root is a group"),
        }
    }
    assert_eq!(graph.update_light_bind_group(&mut device), Err(SceneError::CapacityExceeded));
    assert_eq!(graph.update_light_bind_group_layout(&mut device), Err(SceneError::CapacityExceeded));
    assert!(graph.light_bind_group.is_none());
    assert!(!graph.lights_dirty);
}

#[test]
fn error_messages_tell_the_errors_apart() {
    let all = [
        SceneError::NotFound,
        SceneError::WrongNodeKind,
        SceneError::MissingMeshData,
        SceneError::ResourceExhaustion,
        SceneError::CapacityExceeded,
    ];
    for (i, a) in all.iter().enumerate() {
        assert!(!a.message().is_empty());
        for b in &all[i + 1..] {
            assert_ne!(a.message(), b.message());
        }
    }
    assert_eq!(SceneError::NotFound.message(), "no node with that name");
}

#[test]
fn add_child_puts_a_node_last_under_the_named_group() {
    let mut device = Device::new();
    let mut graph = new_scene(&mut device);
    graph.add_child(None, Node::GroupNode(GroupNode::new("outer".to_string()))).unwrap();
    graph.add_child(Some("outer"), Node::GroupNode(GroupNode::new("first".to_string()))).unwrap();
    graph.add_child(Some("outer"), Node::GroupNode(GroupNode::new("second".to_string()))).unwrap();
    match graph.find_child("outer").unwrap() {
        Node::GroupNode(outer) => {
            let names: Vec<&str> = outer.children.iter().map(name_of).collect();
            assert_eq!(names, vec!["first", "second"]);
        }
        _ => panic!("the node is a group"),
    }
    add_leaf(&mut graph, &mut device, Some("first"), "leaf");
    assert_eq!(
        graph.add_child(Some("leaf"), Node::GroupNode(GroupNode::new("lost".to_string()))),
        Err(SceneError::WrongNodeKind)
    );
    assert_eq!(
        graph.add_child(Some("absent"), Node::GroupNode(GroupNode::new("lost".to_string()))),
        Err(SceneError::NotFound)
    );
    assert!(graph.find_child("lost").is_none());
}

#[test]
fn node_data_starts_with_the_identity() {
    let mut data = scene_renderer::scenegraph::NodeData::new("n".to_string());
    assert_eq!(data.name, "n");
    assert_eq!(floats(data.matrix), glam::Mat4::IDENTITY);
    let moved = glam::Mat4::from_translation(glam::Vec3::new(1.0, 2.0, 3.0));
    data.set_matrix(Mat4 { cols: moved.to_cols_array().map(f32::to_bits) });
    assert_eq!(floats(data.matrix), moved);
    assert_eq!(data.name, "n");
    let node = Node::GroupNode(GroupNode::new("g".to_string()));
    assert_eq!(node.data().name, "g");
}

#[test]
fn a_walk_stops_at_every_node_with_its_world_transform() {
    let mut device = Device::new();
    let mut graph = new_scene(&mut device);
    add_group(&mut graph, None, "a");
    add_leaf(&mut graph, &mut device, Some("a"), "a1");
    add_leaf(&mut graph, &mut device, None, "top");
    match graph.find_child_mut(Some("a")).unwrap() {
        Node::GroupNode(a) => a.set_matrix(Mat4 {
            cols: glam::Mat4::from_translation(glam::Vec3::new(0.0, 3.0, 0.0)).to_cols_array().map(f32::to_bits),
        }),
        _ => panic!("the node is a group"),
    }
    let start = glam::Mat4::from_translation(glam::Vec3::new(1.0, 0.0, 0.0));
    let mut walk =
        scene_renderer::iterators::Walk::new(&graph.root, Mat4 { cols: start.to_cols_array().map(f32::to_bits) });
    let mut stops = Vec::new();
    while let Some((node, world)) = walk.next() {
        stops.push((name_of(node).to_string(), floats(world).transform_point3(glam::Vec3::ZERO)));
    }
    assert!(walk.next().is_none());
    assert_eq!(
        stops,
        vec![
            ("root".to_string(), glam::Vec3::new(1.0, 0.0, 0.0)),
            ("top".to_string(), glam::Vec3::new(1.0, 0.0, 0.0)),
            ("a".to_string(), glam::Vec3::new(1.0, 3.0, 0.0)),
            ("a1".to_string(), glam::Vec3::new(1.0, 3.0, 0.0)),
        ]
    );
}
