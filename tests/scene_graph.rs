use lkgpt::material::{AlphaMode, MeshMaterial};
use lkgpt::model::{Mesh, Model, Texture};
use lkgpt::node::Node;
use lkgpt::ordered_map::OrderedMap;
use lkgpt::scene::{FrameError, PipelineBuildError, Scene, SceneError, MAX_DESCRIPTOR_COUNT};

fn material(base: Option<u8>, normal: Option<u8>) -> MeshMaterial {
    MeshMaterial {
        name: "m".to_string(),
        alpha_mode: AlphaMode::Opaque,
        double_sided: false,
        unlit: false,
        base_color_texture_index: base,
        emissive_texture_index: None,
        metallic_roughness_texture_index: None,
        normal_texture_index: normal,
        occlusion_texture_index: None,
        specular_color_texture_index: None,
        specular_texture_index: None,
        specular_diffuse_texture_index: None,
        specular_glossiness_texture_index: None,
        transmission_texture_index: None,
        vol_thickness_texture_index: None,
    }
}

fn textures(first: u64, n: u64) -> Vec<Texture> {
    (first..first + n).map(|handle| Texture { handle }).collect()
}

fn model_a() -> Model {
    Model {
        meshes: vec![Mesh::new(10, 11, 3, vec![0, 1, 2], 0)],
        textures: textures(100, 2),
        materials: vec![material(Some(0), Some(1))],
    }
}

fn model_b() -> Model {
    Model {
        meshes: vec![
            Mesh::new(20, 21, 4, vec![0, 1, 2, 2, 3, 0], 1),
            Mesh::new(22, 23, 2, vec![0, 1], 0),
        ],
        textures: textures(200, 3),
        materials: vec![material(Some(2), None), material(Some(0), Some(1))],
    }
}

#[test]
fn remap_moves_second_model_by_first_texture_count() {
    let mut scene = Scene::new(1920, 1080).unwrap();
    let a = scene.create_node(Some(model_a()));
    scene.add_node(a);
    assert_eq!(scene.num_of_textures(), 2);
    assert_eq!(scene.num_of_materials(), 1);

    let b = scene.create_node(Some(model_b()));
    let merged = b.model().as_ref().unwrap();
    assert_eq!(merged.meshes[0].material_index(), 3);
    assert_eq!(merged.meshes[0].vertex_material_indices(), &vec![3, 3, 3, 3]);
    assert_eq!(merged.meshes[1].material_index(), 2);
    assert_eq!(merged.meshes[1].vertex_material_indices(), &vec![2, 2]);
    assert_eq!(merged.materials[0].base_color_texture_index, Some(4));
    assert_eq!(merged.materials[0].normal_texture_index, None);
    assert_eq!(merged.materials[1].base_color_texture_index, Some(2));
    assert_eq!(merged.materials[1].normal_texture_index, Some(3));

    assert_eq!(scene.num_of_textures(), 5);
    assert_eq!(scene.num_of_materials(), 3);
    let global = scene.all_materials();
    assert_eq!(global.get(&1).unwrap().base_color_texture_index, Some(4));
    assert_eq!(global.get(&2).unwrap().normal_texture_index, Some(3));
    let handles: Vec<u64> = scene.all_textures().iter().iter().map(|(_, t)| t.handle).collect();
    assert_eq!(handles, vec![100, 101, 200, 201, 202]);
}

#[test]
fn first_model_keeps_its_local_indices() {
    let mut scene = Scene::with_default_resolution();
    let a = scene.create_node(Some(model_a()));
    let merged = a.model().as_ref().unwrap();
    assert_eq!(merged.meshes[0].material_index(), 0);
    assert_eq!(merged.materials[0].base_color_texture_index, Some(0));
    assert_eq!(merged.materials[0].normal_texture_index, Some(1));
}

#[test]
fn insertion_order_is_kept() {
    let mut map: OrderedMap<Texture> = OrderedMap::new();
    map.insert(5, Texture { handle: 50 });
    map.insert(1, Texture { handle: 10 });
    map.insert(3, Texture { handle: 30 });
    let keys: Vec<u8> = map.iter().iter().map(|(k, _)| *k).collect();
    assert_eq!(keys, vec![5, 1, 3]);
    assert_eq!(map.len(), 3);
}

#[test]
fn reinsert_replaces_value_and_keeps_place() {
    let mut map: OrderedMap<Texture> = OrderedMap::new();
    map.insert(5, Texture { handle: 50 });
    map.insert(1, Texture { handle: 10 });
    map.insert(5, Texture { handle: 55 });
    let entries: Vec<(u8, u64)> = map.iter().iter().map(|(k, t)| (*k, t.handle)).collect();
    assert_eq!(entries, vec![(5, 55), (1, 10)]);
    assert_eq!(map.len(), 2);
    assert_eq!(map.get(&7), None);
}

#[test]
fn node_ids_and_aggregates() {
    let mut scene = Scene::with_default_resolution();
    assert_eq!(scene.num_of_nodes(), 0);
    let a = scene.create_node(Some(model_a()));
    assert_eq!(a.id(), 1);
    assert_eq!(a.num_of_vertices(), 3);
    assert_eq!(a.num_of_indices(), 3);
    scene.add_node(a);
    let b = scene.create_node(Some(model_b()));
    assert_eq!(b.id(), 2);
    assert_eq!(b.num_of_vertices(), 6);
    assert_eq!(b.num_of_indices(), 8);
    scene.add_node(b);
    assert_eq!(scene.num_of_nodes(), 2);
    assert_eq!(scene.num_of_vertices(), 9);
    assert_eq!(scene.num_of_indices(), 11);
}

#[test]
fn nested_aggregates_sum_every_descendant() {
    let mut parent = Node::new(1, None, Some(model_a()));
    let mut child = Node::new(2, Some(1), Some(model_b()));
    let grandchild = Node::new(3, Some(2), Some(model_a()));
    child.add_node(grandchild);
    assert_eq!(child.get_num_of_descendants(), 1);
    assert_eq!(child.num_of_vertices_in_tree(), 9);
    parent.add_node(child);
    parent.add_node(Node::new(4, Some(1), None));
    assert_eq!(parent.get_num_of_descendants(), 3);
    assert_eq!(parent.num_of_vertices(), 3);
    assert_eq!(parent.num_of_vertices_in_tree(), 12);
    assert_eq!(parent.num_of_indices_in_tree(), 3 + 8 + 3);

    let mut vbufs = Vec::new();
    let mut ibufs = Vec::new();
    let mut indices = Vec::new();
    parent.get_index_and_vertex_buffers(&mut vbufs, &mut ibufs, &mut indices);
    assert_eq!(vbufs, vec![10, 20, 22, 10]);
    assert_eq!(ibufs, vec![11, 21, 23, 11]);
    assert_eq!(indices, vec![0, 1, 2, 0, 1, 2, 2, 3, 0, 0, 1, 0, 1, 2]);
    assert_eq!(indices.len() as u64, parent.num_of_indices_in_tree());
}

#[test]
fn empty_node_has_no_counts() {
    let node = Node::new(0, None, None);
    assert_eq!(node.num_of_vertices_in_tree(), 0);
    assert_eq!(node.num_of_indices_in_tree(), 0);
    assert_eq!(node.get_num_of_descendants(), 0);
    assert!(node.children().is_empty());
}

#[test]
fn odd_width_is_rejected() {
    match Scene::new(1921, 1080) {
        Err(e) => assert_eq!(e, SceneError::OddDimensions { width: 1921, height: 1080 }),
        Ok(_) => panic!("odd width accepted"),
    }
    assert!(Scene::new(1920, 1081).is_err());
}

#[test]
fn even_dimensions_are_accepted() {
    let scene = Scene::new(1920, 1080).unwrap();
    assert_eq!(scene.width_height(), [1920, 1080]);
    assert_eq!(Scene::with_default_resolution().width_height(), [1920, 1080]);
}

#[test]
fn add_texture_returns_new_count() {
    let mut scene = Scene::with_default_resolution();
    assert_eq!(scene.add_texture(Texture { handle: 7 }), 1);
    assert_eq!(scene.add_texture(Texture { handle: 8 }), 2);
    assert_eq!(scene.num_of_textures(), 2);
}

#[test]
fn prepare_draw_collects_the_whole_scene() {
    let mut scene = Scene::with_default_resolution();
    let a = scene.create_node(Some(model_a()));
    scene.add_node(a);
    let b = scene.create_node(Some(model_b()));
    scene.add_node(b);
    let batch = match scene.prepare_draw(true, 2) {
        Ok(b) => b,
        Err(_) => panic!("draw refused"),
    };
    assert_eq!(batch.index_count, 11);
    assert_eq!(batch.indices.len(), 11);
    assert_eq!(batch.vertex_buffers, vec![10, 20, 22]);
    assert_eq!(batch.index_buffers, vec![11, 21, 23]);
    assert_eq!(batch.textures, vec![100, 101, 200, 201, 202]);
    assert_eq!(batch.materials.len(), 3);
    assert_eq!(batch.materials[0].base_color_texture_index, 0);
    assert_eq!(batch.materials[0].normal_texture_index, 1);
    assert_eq!(batch.materials[1].base_color_texture_index, 4);
    assert_eq!(batch.materials[1].normal_texture_index, 0);
    assert_eq!(batch.materials[2].normal_texture_index, 3);
}

#[test]
fn prepare_draw_errors() {
    let mut scene = Scene::with_default_resolution();
    assert!(matches!(scene.prepare_draw(false, 2), Err(FrameError::CameraNotUpdated)));
    assert!(matches!(
        scene.prepare_draw(true, 0),
        Err(FrameError::Pipeline(PipelineBuildError::MissingMainSet))
    ));
    assert!(matches!(
        scene.prepare_draw(true, 1),
        Err(FrameError::Pipeline(PipelineBuildError::MissingTextureSet))
    ));
    for h in 0..MAX_DESCRIPTOR_COUNT as u64 {
        scene.add_texture(Texture { handle: h });
    }
    assert!(scene.prepare_draw(true, 2).is_ok());
    scene.add_texture(Texture { handle: 99 });
    assert!(matches!(
        scene.prepare_draw(true, 2),
        Err(FrameError::Pipeline(PipelineBuildError::TooManyTextures { count: 16 }))
    ));
}

#[test]
fn gpu_material_fills_empty_slots_with_zero() {
    let mut m = material(Some(4), None);
    m.unlit = true;
    let g = m.to_gpu_material();
    assert_eq!(g.base_color_texture_index, 4);
    assert_eq!(g.normal_texture_index, 0);
    assert_eq!(g.unlit, 1);
}

#[test]
fn material_shift_leaves_empty_slots_empty() {
    let mut m = material(Some(1), None);
    m.update_texture_indexs(5);
    assert_eq!(m.base_color_texture_index, Some(6));
    assert_eq!(m.normal_texture_index, None);
}

#[test]
fn mesh_shift_moves_every_vertex() {
    let mut mesh = Mesh::new(1, 2, 3, vec![0, 1, 2], 1);
    mesh.update_material_index(4);
    assert_eq!(mesh.material_index(), 5);
    assert_eq!(mesh.vertex_material_indices(), &vec![5, 5, 5]);
    assert_eq!(mesh.indices(), &vec![0, 1, 2]);
}

#[test]
fn one_mesh_one_texture_one_material_scene() {
    let mut scene = Scene::with_default_resolution();
    let model = Model {
        meshes: vec![Mesh::new(1, 2, 4, vec![0, 1, 2, 0, 2, 3], 0)],
        textures: textures(9, 1),
        materials: vec![material(Some(0), None)],
    };
    let node = scene.create_node(Some(model));
    scene.add_node(node);
    let batch = match scene.prepare_draw(true, 2) {
        Ok(b) => b,
        Err(_) => panic!("draw refused"),
    };
    assert_eq!(batch.index_count, 6);
    assert_eq!(batch.textures, vec![9]);
    assert_eq!(scene.width_height(), [1920, 1080]);
}

#[test]
fn node_without_model_leaves_scene_unchanged() {
    let mut scene = Scene::with_default_resolution();
    let a = scene.create_node(Some(model_a()));
    scene.add_node(a);
    let n = scene.create_node(None);
    assert_eq!(n.id(), 2);
    assert!(n.model().is_none());
    assert_eq!(n.get_num_of_descendants(), 0);
    assert_eq!(n.num_of_vertices_in_tree(), 0);
    assert_eq!(n.num_of_indices_in_tree(), 0);
    assert_eq!(scene.num_of_textures(), 2);
    assert_eq!(scene.num_of_materials(), 1);
    assert_eq!(scene.num_of_nodes(), 1);
    let keys: Vec<u8> = scene.all_materials().iter().iter().map(|(k, _)| *k).collect();
    assert_eq!(keys, vec![0]);
}

#[test]
fn global_slots_walk_in_merge_order() {
    let mut scene = Scene::with_default_resolution();
    let a = scene.create_node(Some(model_a()));
    scene.add_node(a);
    let b = scene.create_node(Some(model_b()));
    scene.add_node(b);
    let tex: Vec<u8> = scene.all_textures().iter().iter().map(|(k, _)| *k).collect();
    let mat: Vec<u8> = scene.all_materials().iter().iter().map(|(k, _)| *k).collect();
    assert_eq!(tex, vec![0, 1, 2, 3, 4]);
    assert_eq!(mat, vec![0, 1, 2]);
}
