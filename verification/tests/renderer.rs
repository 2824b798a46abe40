use modeling::bytes::buffer_bytes;
use modeling::camera::Camera;
use modeling::event::PhysicalSize;
use modeling::model::{GltfModel, Mesh, Model, ObjModel};
use modeling::renderer::{
    draw_light_mesh, draw_light_mesh_instanced, draw_light_model, draw_light_model_instanced,
    draw_mesh, draw_mesh_instanced, draw_model, draw_model_instanced, DrawCall, Renderer, Uniforms,
    UniformsRaw, DEPTH_LABEL, UNIFORM_WORDS,
};
use modeling::texture::TextureFormat;

fn matrix(first: u32) -> [[u32; 4]; 4] {
    let mut m = [[0u32; 4]; 4];
    for r in 0..4 {
        for c in 0..4 {
            m[r][c] = first + (4 * r + c) as u32;
        }
    }
    m
}

fn mesh(name: &str, num_elements: u32, material: usize) -> Mesh {
    Mesh { name: name.to_string(), vertices: vec![], indices: vec![], num_elements, material }
}

fn models() -> Vec<Model> {
    vec![
        Model::OBJ(ObjModel { meshes: vec![mesh("a", 3, 5), mesh("b", 6, 4)] }),
        Model::GLTF(GltfModel { meshes: vec![], materials: vec![] }),
        Model::OBJ(ObjModel { meshes: vec![mesh("c", 9, 5)] }),
    ]
}

fn call(model: usize, mesh: usize, material: Option<usize>, n: u32, instances: (u32, u32)) -> DrawCall {
    DrawCall { model, mesh, material, num_elements: n, instances }
}

#[test]
fn words_become_four_bytes_each() {
    assert_eq!(buffer_bytes(&[]).len(), 0);
    let bytes = buffer_bytes(&[1, 0x0102_0304, u32::MAX]);
    assert_eq!(bytes.len(), 12);
    assert_eq!(&bytes[..4], &1u32.to_ne_bytes());
    assert_eq!(&bytes[4..8], &0x0102_0304u32.to_ne_bytes());
    assert_eq!(&bytes[8..], &[0xff; 4]);
}

#[test]
fn new_constants_hold_the_identity() {
    let raw = UniformsRaw::new();
    assert_eq!(raw.view_position, [0; 4]);
    for r in 0..4 {
        for c in 0..4 {
            let expected = if r == c { 1.0 } else { 0.0 };
            assert_eq!(f32::from_bits(raw.view_proj[r][c]), expected);
        }
    }
}

#[test]
fn constants_take_the_eye_and_the_matrix() {
    let camera = Camera::new(PhysicalSize { width: 4, height: 3 });
    let mut raw = UniformsRaw::new();
    raw.update_view_proj(&camera, matrix(7));
    let position: Vec<f32> = raw.view_position.iter().map(|w| f32::from_bits(*w)).collect();
    assert_eq!(position, vec![3.0, 4.0, -6.0, 1.0]);
    assert_eq!(raw.view_proj, matrix(7));
    let words = raw.words();
    assert_eq!(words.len(), UNIFORM_WORDS);
    assert_eq!(&words[..4], &raw.view_position);
    assert_eq!(&words[4..], &(7..23).collect::<Vec<u32>>()[..]);
}

#[test]
fn uniforms_follow_the_camera() {
    let mut camera = Camera::new(PhysicalSize { width: 4, height: 3 });
    let mut uniforms = Uniforms::new(&camera, matrix(1));
    assert_eq!(uniforms.uniforms.view_proj, matrix(1));
    assert_eq!(uniforms.uniforms.view_position[..3], camera.eye);
    camera.eye = [11, 12, 13];
    uniforms.update(&camera, matrix(2));
    assert_eq!(uniforms.uniforms.view_position, [11, 12, 13, 1f32.to_bits()]);
    assert_eq!(uniforms.uniforms.view_proj, matrix(2));
    let bytes = uniforms.buffer();
    assert_eq!(bytes.len(), 80);
    assert_eq!(&bytes[4..8], &12u32.to_ne_bytes());
}

#[test]
fn mesh_draws_bind_the_material() {
    let m = mesh("a", 36, 2);
    assert_eq!(draw_mesh(1, 4, &m), call(1, 4, Some(2), 36, (0, 1)));
    assert_eq!(draw_mesh_instanced(1, 4, &m, (2, 9)), call(1, 4, Some(2), 36, (2, 9)));
    assert_eq!(draw_light_mesh(1, 4, &m), call(1, 4, None, 36, (0, 1)));
    assert_eq!(draw_light_mesh_instanced(1, 4, &m, (2, 9)), call(1, 4, None, 36, (2, 9)));
}

#[test]
fn model_draws_go_mesh_by_mesh() {
    let models = models();
    assert_eq!(
        draw_model(0, &models[0]),
        vec![call(0, 0, Some(5), 3, (0, 1)), call(0, 1, Some(4), 6, (0, 1))]
    );
    assert_eq!(
        draw_model_instanced(7, &models[0], (1, 3)),
        vec![call(7, 0, Some(5), 3, (1, 3)), call(7, 1, Some(4), 6, (1, 3))]
    );
    assert_eq!(draw_model(1, &models[1]), vec![]);
    assert_eq!(
        draw_light_model(0, &models[0]),
        vec![call(0, 0, None, 3, (0, 1)), call(0, 1, None, 6, (0, 1))]
    );
    assert_eq!(draw_light_model_instanced(2, &models[2], (0, 4)), vec![call(2, 0, None, 9, (0, 4))]);
}

#[test]
fn renderer_draws_every_mesh_of_every_model() {
    let camera = Camera::new(PhysicalSize { width: 800, height: 600 });
    let renderer = Renderer::new(800, 600, &camera, matrix(0));
    assert_eq!(renderer.draw(&vec![]), vec![]);
    assert_eq!(
        renderer.draw(&models()),
        vec![
            call(0, 0, Some(5), 3, (0, 1)),
            call(0, 1, Some(4), 6, (0, 1)),
            call(2, 0, Some(5), 9, (0, 1)),
        ]
    );
}

#[test]
fn renderer_starts_with_a_depth_texture_of_the_surface() {
    let camera = Camera::new(PhysicalSize { width: 800, height: 600 });
    let mut renderer = Renderer::new(800, 600, &camera, matrix(3));
    assert_eq!((renderer.depth_texture.width, renderer.depth_texture.height), (800, 600));
    assert_eq!(renderer.depth_texture.format, TextureFormat::Depth32Float);
    assert_eq!(renderer.depth_texture.label.as_deref(), Some(DEPTH_LABEL));
    assert_eq!(renderer.uniforms.uniforms.view_proj, matrix(3));
    renderer.update(&camera, matrix(4));
    assert_eq!(renderer.uniforms.uniforms.view_proj, matrix(4));
    assert_eq!((renderer.depth_texture.width, renderer.depth_texture.height), (800, 600));
}
