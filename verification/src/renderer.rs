//! What is drawn each frame: the per-frame constants of the view, the depth
//! texture, and the list of draw calls for the models of a scene.

use crate::bytes::buffer_bytes;
use crate::bytes::in_machine_order;
use crate::camera::Camera;
use crate::camera::ONE;
use crate::model::Mesh;
use crate::model::Model;
use crate::text::text_eq;
use crate::texture::depth_texture;
use crate::texture::FilterMode;
use crate::texture::Texture;
use crate::texture::TextureFormat;
use crate::texture::DEPTH_TEXTURE_ID;
use vstd::prelude::*;

verus! {

/// Number of words in the per-frame constants of the view.
pub const UNIFORM_WORDS: usize = 20;

/// Label of the depth texture.
pub const DEPTH_LABEL: &'static str = "depth_texture";

/// The per-frame constants of the view as the shaders read them.
#[derive(Clone, Copy, Debug, PartialEq, Eq)]
pub struct UniformsRaw {
    /// Where the eye is, completed by a one.
    pub view_position: [u32; 4],
    /// The matrix that takes the world into clip space.
    pub view_proj: [[u32; 4]; 4],
}

/// The matrix that changes nothing.
pub open spec fn identity() -> [[u32; 4]; 4] {
    [[ONE, 0u32, 0u32, 0u32], [0u32, ONE, 0u32, 0u32], [0u32, 0u32, ONE, 0u32], [0u32, 0u32, 0u32, ONE]]
}

impl UniformsRaw {
    /// The constants for a view from `eye` with the matrix `view_proj`.
    pub open spec fn of(eye: [u32; 3], view_proj: [[u32; 4]; 4]) -> UniformsRaw {
        UniformsRaw { view_position: [eye[0], eye[1], eye[2], ONE], view_proj }
    }

    /// The words of the constants in buffer order.
    pub open spec fn spec_words(self) -> Seq<u32> {
        self.view_position@ + self.view_proj[0]@ + self.view_proj[1]@ + self.view_proj[2]@
            + self.view_proj[3]@
    }

    /// Constants with the eye nowhere and the matrix that changes nothing.
    pub fn new() -> (raw: UniformsRaw)
        ensures
            raw == (UniformsRaw { view_position: [0u32, 0u32, 0u32, 0u32], view_proj: identity() }),
    {
        let raw = UniformsRaw {
            view_position: [0, 0, 0, 0],
            view_proj: [[ONE, 0, 0, 0], [0, ONE, 0, 0], [0, 0, ONE, 0], [0, 0, 0, ONE]],
        };
        assert(raw.view_proj =~= identity());
        raw
    }

    /// Takes the eye of `camera` and the matrix `view_proj`, which is to be
    /// the camera's projection times its view.
    pub fn update_view_proj(&mut self, camera: &Camera, view_proj: [[u32; 4]; 4])
        ensures
            *final(self) == Self::of(camera.eye, view_proj),
    {
        self.view_position = [camera.eye[0], camera.eye[1], camera.eye[2], ONE];
        self.view_proj = view_proj;
    }

    /// The words of the constants in buffer order.
    pub fn words(&self) -> (w: [u32; 20])
        ensures
            w@ == self.spec_words(),
    {
        let m = &self.view_proj;
        let w = [
            self.view_position[0],
            self.view_position[1],
            self.view_position[2],
            self.view_position[3],
            m[0][0],
            m[0][1],
            m[0][2],
            m[0][3],
            m[1][0],
            m[1][1],
            m[1][2],
            m[1][3],
            m[2][0],
            m[2][1],
            m[2][2],
            m[2][3],
            m[3][0],
            m[3][1],
            m[3][2],
            m[3][3],
        ];
        assert(w@ =~= self.spec_words());
        w
    }
}

/// The per-frame constants of the view with what goes with their buffer.
#[derive(Clone, Copy, Debug, PartialEq, Eq)]
pub struct Uniforms {
    /// Content of the uniform buffer.
    pub uniforms: UniformsRaw,
}

impl Uniforms {
    /// The constants for `camera`.
    pub fn new(camera: &Camera, view_proj: [[u32; 4]; 4]) -> (uniforms: Uniforms)
        ensures
            uniforms.uniforms == UniformsRaw::of(camera.eye, view_proj),
    {
        let mut uniforms = UniformsRaw::new();
        uniforms.update_view_proj(camera, view_proj);
        Uniforms { uniforms }
    }

    /// The content of the uniform buffer: the constants as bytes.
    pub fn buffer(&self) -> (bytes: Vec<u8>)
        ensures
            in_machine_order(self.uniforms.spec_words(), bytes@),
            bytes@.len() == 4 * UNIFORM_WORDS,
    {
        let words = self.uniforms.words();
        buffer_bytes(words.as_slice())
    }

    /// Takes the constants for `camera`.
    pub fn update(&mut self, camera: &Camera, view_proj: [[u32; 4]; 4])
        ensures
            final(self).uniforms == UniformsRaw::of(camera.eye, view_proj),
    {
        self.uniforms.update_view_proj(camera, view_proj);
    }
}

/// One indexed draw: the mesh with number `mesh` of the model with number
/// `model`, with the material that the mesh is bound to.
#[derive(Clone, Copy, Debug, PartialEq, Eq)]
pub struct DrawCall {
    pub model: usize,
    pub mesh: usize,
    /// Handle of the material; nothing for a draw that binds none.
    pub material: Option<usize>,
    /// Number of indices to draw, from the first.
    pub num_elements: u32,
    /// First instance and the one after the last.
    pub instances: (u32, u32),
}

/// The draw of one mesh with its material.
pub open spec fn mesh_call(model: int, index: int, mesh: Mesh, instances: (u32, u32)) -> DrawCall {
    DrawCall {
        model: model as usize,
        mesh: index as usize,
        material: Some(mesh.material),
        num_elements: mesh.num_elements,
        instances,
    }
}

/// The draws of a model: one for each mesh, in order.
pub open spec fn model_calls(model: int, meshes: Seq<Mesh>, instances: (u32, u32)) -> Seq<DrawCall> {
    Seq::new(meshes.len(), |k: int| mesh_call(model, k, meshes[k], instances))
}

/// The draws of the first `n` of `models`: model after model, each once.
pub open spec fn scene_calls(models: Seq<Model>, n: int) -> Seq<DrawCall>
    decreases n,
{
    if n <= 0 {
        Seq::empty()
    } else {
        scene_calls(models, n - 1) + model_calls(n - 1, models[n - 1].spec_meshes(), (0, 1))
    }
}

/// The draw of one mesh without a material, as the markers of lights are
/// drawn.
pub open spec fn light_call(model: int, index: int, mesh: Mesh, instances: (u32, u32)) -> DrawCall {
    DrawCall {
        model: model as usize,
        mesh: index as usize,
        material: None,
        num_elements: mesh.num_elements,
        instances,
    }
}

/// The draws of a model as a marker of a light: one for each mesh, in
/// order.
pub open spec fn light_model_calls(model: int, meshes: Seq<Mesh>, instances: (u32, u32)) -> Seq<
    DrawCall,
> {
    Seq::new(meshes.len(), |k: int| light_call(model, k, meshes[k], instances))
}

/// The draw of one mesh of `instances` instances, bound to its material.
pub fn draw_mesh_instanced(model: usize, index: usize, mesh: &Mesh, instances: (u32, u32)) -> (call:
    DrawCall)
    ensures
        call == mesh_call(model as int, index as int, *mesh, instances),
{
    DrawCall {
        model,
        mesh: index,
        material: Some(mesh.material),
        num_elements: mesh.num_elements,
        instances,
    }
}

/// The draw of one mesh, once.
pub fn draw_mesh(model: usize, index: usize, mesh: &Mesh) -> (call: DrawCall)
    ensures
        call == mesh_call(model as int, index as int, *mesh, (0, 1)),
{
    draw_mesh_instanced(model, index, mesh, (0, 1))
}

/// The draws of all meshes of a model, `instances` instances of each.
pub fn draw_model_instanced(index: usize, model: &Model, instances: (u32, u32)) -> (calls: Vec<
    DrawCall,
>)
    ensures
        calls@ == model_calls(index as int, model.spec_meshes(), instances),
{
    let meshes = model.meshes();
    let n: usize = meshes.len();
    let mut calls: Vec<DrawCall> = Vec::new();
    let mut k: usize = 0;
    while k < n
        invariant
            k <= n,
            n == meshes@.len(),
            meshes@ == model.spec_meshes(),
            calls@.len() == k,
            forall|j: int|
                0 <= j < k ==> (#[trigger] calls@[j]) == mesh_call(
                    index as int,
                    j,
                    meshes@[j],
                    instances,
                ),
        decreases n - k,
    {
        calls.push(draw_mesh_instanced(index, k, &meshes[k], instances));
        k += 1;
    }
    assert(calls@ =~= model_calls(index as int, model.spec_meshes(), instances));
    calls
}

/// The draws of all meshes of a model, once each.
pub fn draw_model(index: usize, model: &Model) -> (calls: Vec<DrawCall>)
    ensures
        calls@ == model_calls(index as int, model.spec_meshes(), (0, 1)),
{
    draw_model_instanced(index, model, (0, 1))
}

/// The draw of one mesh as a marker of a light, `instances` instances.
pub fn draw_light_mesh_instanced(model: usize, index: usize, mesh: &Mesh, instances: (u32, u32))
    -> (call: DrawCall)
    ensures
        call == light_call(model as int, index as int, *mesh, instances),
{
    DrawCall { model, mesh: index, material: None, num_elements: mesh.num_elements, instances }
}

/// The draw of one mesh as a marker of a light, once.
pub fn draw_light_mesh(model: usize, index: usize, mesh: &Mesh) -> (call: DrawCall)
    ensures
        call == light_call(model as int, index as int, *mesh, (0, 1)),
{
    draw_light_mesh_instanced(model, index, mesh, (0, 1))
}

/// The draws of all meshes of a model as a marker of a light, `instances`
/// instances of each.
pub fn draw_light_model_instanced(index: usize, model: &Model, instances: (u32, u32)) -> (calls:
    Vec<DrawCall>)
    ensures
        calls@ == light_model_calls(index as int, model.spec_meshes(), instances),
{
    let meshes = model.meshes();
    let n: usize = meshes.len();
    let mut calls: Vec<DrawCall> = Vec::new();
    let mut k: usize = 0;
    while k < n
        invariant
            k <= n,
            n == meshes@.len(),
            meshes@ == model.spec_meshes(),
            calls@.len() == k,
            forall|j: int|
                0 <= j < k ==> (#[trigger] calls@[j]) == light_call(
                    index as int,
                    j,
                    meshes@[j],
                    instances,
                ),
        decreases n - k,
    {
        calls.push(draw_light_mesh_instanced(index, k, &meshes[k], instances));
        k += 1;
    }
    assert(calls@ =~= light_model_calls(index as int, model.spec_meshes(), instances));
    calls
}

/// The draws of all meshes of a model as a marker of a light, once each.
pub fn draw_light_model(index: usize, model: &Model) -> (calls: Vec<DrawCall>)
    ensures
        calls@ == light_model_calls(index as int, model.spec_meshes(), (0, 1)),
{
    draw_light_model_instanced(index, model, (0, 1))
}

/// What the passes of a frame share: the constants of the view and the
/// depth texture.
#[derive(Debug)]
pub struct Renderer {
    pub uniforms: Uniforms,
    pub depth_texture: Texture,
}

impl Renderer {
    /// Whether the depth texture is that of a surface of `width` by
    /// `height` pixels.
    pub open spec fn fits(&self, width: u32, height: u32) -> bool {
        self.depth_texture@ == depth_texture(width, height, DEPTH_LABEL@)
    }

    /// Checks that the depth texture is that of a surface of `width` by
    /// `height` pixels.
    pub fn has_depth_for(&self, width: u32, height: u32) -> (fits: bool)
        ensures
            fits == self.fits(width, height),
    {
        let depth = &self.depth_texture;
        let labelled = match &depth.label {
            Some(label) => text_eq(label.as_str(), DEPTH_LABEL),
            None => false,
        };
        let linear = |mode: FilterMode| -> (is: bool)
            ensures
                is == (mode == FilterMode::Linear),
            {
                match mode {
                    FilterMode::Linear => true,
                    FilterMode::Nearest => false,
                }
            };
        let sampled = linear(depth.sampler.mag_filter) && linear(depth.sampler.min_filter)
            && !linear(depth.sampler.mipmap_filter) && depth.sampler.compare_less_equal;
        let formatted = match depth.format {
            TextureFormat::Depth32Float => true,
            _ => false,
        };
        let fits = labelled && sampled && formatted && depth.width == width && depth.height
            == height && depth.pixels.len() == 0 && depth.bytes_per_row == 0
            && depth.rows_per_image == 0 && depth.id == DEPTH_TEXTURE_ID && depth.tex_coord == 0;
        assert(fits ==> depth.pixels@ =~= Seq::<u8>::empty());
        fits
    }

    /// The renderer for a surface of `width` by `height` pixels, seen
    /// through `camera`.
    pub fn new(width: u32, height: u32, camera: &Camera, view_proj: [[u32; 4]; 4]) -> (renderer:
        Renderer)
        ensures
            renderer.fits(width, height),
            renderer.uniforms.uniforms == UniformsRaw::of(camera.eye, view_proj),
    {
        Renderer {
            uniforms: Uniforms::new(camera, view_proj),
            depth_texture: Texture::create_depth_texture(width, height, DEPTH_LABEL),
        }
    }

    /// Takes the constants for `camera`.
    pub fn update(&mut self, camera: &Camera, view_proj: [[u32; 4]; 4])
        ensures
            final(self).uniforms.uniforms == UniformsRaw::of(camera.eye, view_proj),
            final(self).depth_texture == old(self).depth_texture,
    {
        self.uniforms.update(camera, view_proj);
    }

    /// The draws of the opaque pass: every mesh of every model, with its
    /// material, model after model.
    pub fn draw(&self, models: &Vec<Model>) -> (calls: Vec<DrawCall>)
        ensures
            calls@ == scene_calls(models@, models@.len() as int),
    {
        let n: usize = models.len();
        let mut calls: Vec<DrawCall> = Vec::new();
        let mut i: usize = 0;
        while i < n
            invariant
                i <= n,
                n == models@.len(),
                calls@ == scene_calls(models@, i as int),
            decreases n - i,
        {
            let mut more = draw_model(i, &models[i]);
            calls.append(&mut more);
            i += 1;
        }
        calls
    }
}

} // verus!
