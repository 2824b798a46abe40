use modeling::camera::Camera;
use modeling::event::PhysicalSize;
use modeling::light::{Light, LightError, LightMove, LightObject};
use modeling::material::ObjMaterial;
use modeling::mesh::{GeometryError, ObjMesh};
use modeling::model::{LoadError, Model, ObjSource};
use modeling::renderer::DrawCall;
use modeling::scene::Scene;
use modeling::texture::TextureFile;

fn matrix(first: u32) -> [[u32; 4]; 4] {
    let mut m = [[0u32; 4]; 4];
    for r in 0..4 {
        for c in 0..4 {
            m[r][c] = first + (4 * r + c) as u32;
        }
    }
    m
}

fn scene() -> Scene {
    Scene::new(800, 600, 2, matrix(100), matrix(200)).unwrap()
}

fn triangle(name: &str, material_id: usize) -> ObjMesh {
    ObjMesh {
        name: name.to_string(),
        positions: vec![0; 9],
        texcoords: vec![0; 6],
        normals: vec![0; 9],
        indices: vec![0, 1, 2],
        material_id: Some(material_id),
        tangents: vec![[1, 2, 3]],
        bitangents: vec![[4, 5, 6]],
    }
}

fn material(name: &str) -> ObjMaterial {
    ObjMaterial {
        name: name.to_string(),
        diffuse_texture: String::new(),
        diffuse_file: TextureFile::Missing,
        diffuse: [1, 2, 3],
        normal_texture: String::new(),
        normal_file: TextureFile::Missing,
        specular_texture: String::new(),
        specular_file: TextureFile::Missing,
        specular: [4, 5, 6],
    }
}

fn house() -> ObjSource {
    ObjSource {
        path: "res/house.obj".to_string(),
        meshes: vec![triangle("wall", 1), triangle("roof", 0)],
        materials: vec![material("tiles"), material("brick")],
    }
}

#[test]
fn new_scene_has_camera_light_and_nothing_else() {
    let s = scene();
    assert!(s.models.is_empty());
    assert_eq!(s.materials.len(), 0);
    assert_eq!(s.shaders.len(), 0);
    assert_eq!(s.camera, Camera::new(PhysicalSize { width: 800, height: 600 }));
    assert_eq!(s.lights.max_lights, 2);
    assert_eq!(s.lights.lights.len(), 1);
    let mut light = Light::initial();
    assert_eq!(s.lights.lights[0].raw, light.to_raw(matrix(100)));
    light.shadow_view = Some(0);
    assert_eq!(s.lights.lights[0].light, light);
    assert_eq!(s.renderer.uniforms.uniforms.view_proj, matrix(200));
    assert_eq!(s.renderer.uniforms.uniforms.view_position[..3], s.camera.eye);
    assert_eq!((s.renderer.depth_texture.width, s.renderer.depth_texture.height), (800, 600));
    assert!(s.draw().is_empty());
}

#[test]
fn scene_needs_room_for_its_light() {
    let r = Scene::new(800, 600, 0, matrix(0), matrix(0));
    assert_eq!(r.unwrap_err(), LightError::TooManyLights { count: 1, max_lights: 0 });
    let r = Scene::new(800, 600, 0x1_0000_0000, matrix(0), matrix(0));
    assert_eq!(r.unwrap_err(), LightError::CapacityTooLarge { max_lights: 0x1_0000_0000 });
    assert!(Scene::new(800, 600, 1, matrix(0), matrix(0)).is_ok());
}

#[test]
fn resize_brings_aspect_and_depth_texture_in_step() {
    let mut s = scene();
    let before = s.camera.projection.aspect_width as f32 / s.camera.projection.aspect_height as f32;
    assert!((before - 1.3333).abs() < 1e-4);
    s.resize(1920, 1080);
    let after = s.camera.projection.aspect_width as f32 / s.camera.projection.aspect_height as f32;
    assert!((after - 1.7778).abs() < 1e-4);
    assert_eq!((s.renderer.depth_texture.width, s.renderer.depth_texture.height), (1920, 1080));
    let fresh = scene();
    assert_eq!(s.camera.eye, fresh.camera.eye);
    assert_eq!(s.camera.projection.fovy, fresh.camera.projection.fovy);
    assert_eq!(s.renderer.uniforms, fresh.renderer.uniforms);
    assert_eq!(s.lights.lights, fresh.lights.lights);
}

#[test]
fn scene_can_tell_whether_it_is_in_step() {
    let mut s = scene();
    assert!(s.is_in_step(800, 600));
    assert!(!s.is_in_step(600, 800));
    assert!(!s.is_in_step(1600, 1200));
    assert!(s.renderer.has_depth_for(800, 600));
    s.resize(1600, 1200);
    assert!(s.is_in_step(1600, 1200));
    s.renderer.depth_texture.label = None;
    assert!(!s.is_in_step(1600, 1200));
    assert!(!s.renderer.has_depth_for(1600, 1200));
}

#[test]
fn update_moves_every_light_and_takes_the_matrices() {
    let mut s = scene();
    let second = Light::new([9, 9, 9], [8, 8, 8], 7, (6, 5));
    s.lights.lights.push(LightObject::new(Light { shadow_view: Some(1), ..second }, matrix(0)));
    s.camera.eye = [7, 8, 9];
    let moves = vec![
        LightMove { position: [1, 2, 3], view_proj: matrix(300) },
        LightMove { position: [4, 5, 6], view_proj: matrix(310) },
    ];
    assert_eq!(s.update(&moves, matrix(400)), Ok(()));
    assert_eq!(s.lights.lights[0].light.position, [1, 2, 3]);
    assert_eq!(s.lights.lights[0].light.shadow_view, Some(0));
    assert_eq!(s.lights.lights[0].raw.projection, matrix(300));
    assert_eq!(s.lights.lights[0].raw.position, [1, 2, 3, 1f32.to_bits()]);
    assert_eq!(s.lights.lights[1].light.position, [4, 5, 6]);
    assert_eq!(s.lights.lights[1].light.color, [8, 8, 8]);
    assert_eq!(s.lights.lights[1].light.shadow_view, Some(1));
    assert_eq!(s.lights.lights[1].raw, s.lights.lights[1].light.to_raw(matrix(310)));
    assert_eq!(s.renderer.uniforms.uniforms.view_proj, matrix(400));
    assert_eq!(s.renderer.uniforms.uniforms.view_position, [7, 8, 9, 1f32.to_bits()]);
    assert_eq!((s.renderer.depth_texture.width, s.renderer.depth_texture.height), (800, 600));
}

#[test]
fn update_needs_a_move_for_each_light() {
    let mut s = scene();
    let before = s.lights.lights.clone();
    let uniforms = s.renderer.uniforms;
    assert_eq!(s.update(&vec![], matrix(400)), Err(LightError::MoveCount { lights: 1, moves: 0 }));
    assert_eq!(s.lights.lights, before);
    assert_eq!(s.renderer.uniforms, uniforms);
    s.lights.lights.clear();
    assert_eq!(s.update(&vec![], matrix(400)), Ok(()));
    assert_eq!(s.renderer.uniforms.uniforms.view_proj, matrix(400));
}

#[test]
fn files_at_different_paths_keep_their_materials() {
    let mut s = scene();
    assert_eq!(s.load_obj(&house(), "out/shader"), Ok(0));
    let mut other = house();
    other.path = "res/barn.obj".to_string();
    other.materials[0].diffuse = [200, 100, 50];
    assert_eq!(s.load_obj(&other, "out/shader"), Ok(1));
    assert_eq!(s.materials.len(), 4);
    assert_eq!(s.materials.key(2), Some("res/barn.obj-0"));
    let (first, second) = match (&s.models[0], &s.models[1]) {
        (Model::OBJ(a), Model::OBJ(b)) => (a, b),
        other => panic!("unexpected {:?}", other),
    };
    assert_eq!(first.meshes[1].material, 0);
    assert_eq!(second.meshes[1].material, 2);
    assert_eq!(s.materials.get(0).unwrap().diffuse_texture.pixels, vec![1, 2, 3, 0xff]);
    assert_eq!(s.materials.get(2).unwrap().diffuse_texture.pixels, vec![200, 100, 50, 0xff]);
    assert_eq!(s.materials.get(0).unwrap().name, s.materials.get(2).unwrap().name);
}

#[test]
fn loaded_models_are_drawn_in_the_order_they_came() {
    let mut s = scene();
    assert_eq!(s.load_obj(&house(), "out/shader"), Ok(0));
    let mut shed = house();
    shed.meshes.pop();
    shed.materials.push(material("wood"));
    shed.meshes[0].material_id = Some(2);
    assert_eq!(s.load_obj(&shed, "out/shader"), Ok(1));
    assert_eq!(s.models.len(), 2);
    assert_eq!(s.shaders.len(), 1);
    assert_eq!(s.materials.len(), 3);
    assert_eq!(s.materials.key(0), Some("res/house.obj-0"));
    assert_eq!(s.materials.key(1), Some("res/house.obj-1"));
    assert_eq!(s.materials.key(2), Some("res/house.obj-2"));
    let call = |model, mesh, material| DrawCall {
        model,
        mesh,
        material: Some(material),
        num_elements: 3,
        instances: (0, 1),
    };
    assert_eq!(s.draw(), vec![call(0, 0, 1), call(0, 1, 0), call(1, 0, 2)]);
    match &s.models[1] {
        Model::OBJ(m) => assert_eq!(m.meshes[0].vertices[2].tangent, [1, 2, 3]),
        other => panic!("unexpected {:?}", other),
    }
}

#[test]
fn failed_load_leaves_the_scene_as_it_was() {
    let mut s = scene();
    assert_eq!(s.load_obj(&house(), "out/shader"), Ok(0));
    let mut broken = house();
    broken.materials.push(material("new"));
    broken.meshes[1].indices = vec![0, 1];
    assert_eq!(
        s.load_obj(&broken, "other/shader"),
        Err(LoadError::Geometry { mesh: 1, error: GeometryError::IndexCount })
    );
    assert_eq!(s.models.len(), 1);
    assert_eq!(s.materials.len(), 2);
    assert_eq!(s.shaders.len(), 1);
    assert_eq!(s.materials.find("res/house.obj-2"), None);
}
