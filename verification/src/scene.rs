//! The scene: the one owner of the models, the lights, the camera, the
//! resource caches and what the renderer derives from them.

use crate::cache::ResourceCache;
use crate::camera::initial_camera;
use crate::camera::Camera;
use crate::camera::Projection;
use crate::event::PhysicalSize;
use crate::light::capacity_error;
use crate::light::initial_light;
use crate::light::Light;
use crate::light::moved;
use crate::light::LightError;
use crate::light::LightMove;
use crate::light::LightObject;
use crate::light::Lights;
use crate::model::LoadError;
use crate::model::Material;
use crate::model::Model;
use crate::model::ObjModel;
use crate::model::ObjSource;
use crate::renderer::scene_calls;
use crate::renderer::DrawCall;
use crate::renderer::Renderer;
use crate::renderer::UniformsRaw;
use crate::shader::Shader;
use crate::texture::Texture;
use vstd::prelude::*;

verus! {

/// A scene.
#[derive(Debug)]
pub struct Scene {
    pub models: Vec<Model>,
    pub lights: Lights,
    pub camera: Camera,
    pub renderer: Renderer,
    pub materials: ResourceCache<Material>,
    pub shaders: ResourceCache<Shader>,
}

impl Scene {
    /// The caches and the set of lights are sound.
    pub open spec fn wf(&self) -> bool {
        &&& self.lights.wf()
        &&& self.materials.wf()
        &&& self.shaders.wf()
    }

    /// Whether what the scene derives from the size of the surface is
    /// derived from `width` by `height` pixels: the aspect ratio of the
    /// projection and the size of the depth texture.
    pub open spec fn fits(&self, width: u32, height: u32) -> bool {
        &&& self.camera.projection.aspect_width == width
        &&& self.camera.projection.aspect_height == height
        &&& self.camera.projection.has_aspect_of(width, height)
        &&& self.renderer.fits(width, height)
    }

    /// Checks that lights, projection and depth texture are sound and go
    /// by a surface of `width` by `height` pixels.
    pub fn is_in_step(&self, width: u32, height: u32) -> (ok: bool)
        ensures
            ok == (self.lights.wf() && self.fits(width, height)),
    {
        assert(width * height == height * width) by (nonlinear_arith);
        self.lights.is_sound() && self.camera.projection.aspect_width
            == width && self.camera.projection.aspect_height == height
            && self.renderer.has_depth_for(width, height)
    }

    /// An empty scene for a surface of `width` by `height` pixels: the
    /// initial camera, the initial light in a set with room for
    /// `max_lights`, no model, empty caches.
    ///
    /// `light_view_proj` is to be the matrix of the initial light,
    /// `view_proj` that of the initial camera.
    pub fn new(
        width: u32,
        height: u32,
        max_lights: usize,
        light_view_proj: [[u32; 4]; 4],
        view_proj: [[u32; 4]; 4],
    ) -> (r: Result<Scene, LightError>)
        ensures
            match r {
                Ok(scene) => {
                    &&& capacity_error(max_lights, 1).is_none()
                    &&& scene.wf()
                    &&& scene.fits(width, height)
                    &&& scene.models@.len() == 0
                    &&& scene.materials.keys().len() == 0
                    &&& scene.shaders.keys().len() == 0
                    &&& scene.lights.capacity() == max_lights
                    &&& scene.lights.lights@.len() == 1
                    &&& scene.lights.lights@[0] == (LightObject {
                        light: Light { shadow_view: Some(0u32), ..initial_light() },
                        raw: initial_light().record(light_view_proj),
                    })
                    &&& scene.camera == initial_camera(width, height)
                    &&& scene.renderer.uniforms.uniforms == UniformsRaw::of(
                        scene.camera.eye,
                        view_proj,
                    )
                },
                Err(e) => capacity_error(max_lights, 1) == Some(e),
            },
    {
        let light = Light::initial();
        let mut first: Vec<LightObject> = Vec::new();
        first.push(LightObject::new(light, light_view_proj));
        let lights = match Lights::new(max_lights, first) {
            Ok(lights) => lights,
            Err(e) => {
                return Err(e);
            },
        };
        let camera = Camera::new(PhysicalSize { width, height });
        assert(width * height == height * width) by (nonlinear_arith);
        Ok(
            Scene {
                models: Vec::new(),
                renderer: Renderer::new(width, height, &camera, view_proj),
                lights,
                camera,
                materials: ResourceCache::new(),
                shaders: ResourceCache::new(),
            },
        )
    }

    /// The draws of the opaque pass: every mesh of every model with its
    /// material, model after model in the order in which they were added.
    pub fn draw(&self) -> (calls: Vec<DrawCall>)
        ensures
            calls@ == scene_calls(self.models@, self.models@.len() as int),
    {
        self.renderer.draw(&self.models)
    }

    /// Takes the size of the surface: the projection takes its aspect ratio
    /// and the depth texture is made anew in its size. Nothing else
    /// changes.
    pub fn resize(&mut self, width: u32, height: u32)
        ensures
            final(self).fits(width, height),
            final(self).camera == (Camera {
                projection: Projection {
                    aspect_width: width,
                    aspect_height: height,
                    ..old(self).camera.projection
                },
                ..old(self).camera
            }),
            final(self).renderer.uniforms == old(self).renderer.uniforms,
            final(self).models == old(self).models,
            final(self).lights == old(self).lights,
            final(self).materials == old(self).materials,
            final(self).shaders == old(self).shaders,
    {
        self.camera.projection.resize(width, height);
        self.renderer.depth_texture = Texture::create_depth_texture(
            width,
            height,
            crate::renderer::DEPTH_LABEL,
        );
    }

    /// Takes what a frame changes: every light goes by its move, and the
    /// records of the lights and of the view are derived anew with the
    /// matrices given. `view_proj` is to be the camera's projection times
    /// its view. If there is not one move for each light, nothing changes.
    pub fn update(&mut self, moves: &Vec<LightMove>, view_proj: [[u32; 4]; 4]) -> (r: Result<
        (),
        LightError,
    >)
        ensures
            old(self).wf() ==> final(self).wf(),
            final(self).lights.max_lights == old(self).lights.max_lights,
            final(self).renderer.depth_texture == old(self).renderer.depth_texture,
            final(self).camera == old(self).camera,
            final(self).models == old(self).models,
            final(self).materials == old(self).materials,
            final(self).shaders == old(self).shaders,
            match r {
                Ok(()) => {
                    &&& moves@.len() == old(self).lights.lights@.len()
                    &&& final(self).lights.lights@ == moved(old(self).lights.lights@, moves@)
                    &&& final(self).renderer.uniforms.uniforms == UniformsRaw::of(
                        old(self).camera.eye,
                        view_proj,
                    )
                },
                Err(e) => {
                    &&& moves@.len() != old(self).lights.lights@.len()
                    &&& e == (LightError::MoveCount {
                        lights: old(self).lights.lights@.len() as usize,
                        moves: moves@.len() as usize,
                    })
                    &&& final(self).lights.lights@ == old(self).lights.lights@
                    &&& final(self).renderer.uniforms == old(self).renderer.uniforms
                },
            },
    {
        match self.lights.update(moves) {
            Ok(()) => {},
            Err(e) => {
                return Err(e);
            },
        }
        self.renderer.update(&self.camera, view_proj);
        Ok(())
    }

    /// Loads a model from what its OBJ file states and adds it to the
    /// scene.
    ///
    /// The model is added whole, behind the models that are there, or not
    /// at all: if anything is wrong with the source, the scene stays as it
    /// was.
    pub fn load_obj(&mut self, source: &ObjSource, shader_path: &str) -> (r: Result<
        usize,
        LoadError,
    >)
        requires
            old(self).wf(),
        ensures
            final(self).wf(),
            final(self).camera == old(self).camera,
            final(self).lights == old(self).lights,
            final(self).renderer == old(self).renderer,
            match r {
                Ok(index) => {
                    &&& index == old(self).models@.len()
                    &&& final(self).models@.len() == index + 1
                    &&& final(self).models@.subrange(0, index as int) == old(self).models@
                    &&& final(self).models@[index as int] matches Model::OBJ(model)
                    &&& source.loaded(
                        shader_path@,
                        &old(self).materials,
                        &final(self).materials,
                        &old(self).shaders,
                        &final(self).shaders,
                        model,
                    )
                },
                Err(e) => {
                    &&& source.load_error() == Some(e)
                    &&& final(self).models == old(self).models
                    &&& final(self).materials.keys() == old(self).materials.keys()
                    &&& final(self).materials.resources() == old(self).materials.resources()
                    &&& final(self).shaders.keys() == old(self).shaders.keys()
                    &&& final(self).shaders.resources() == old(self).shaders.resources()
                },
            },
    {
        match ObjModel::load(source, shader_path, &mut self.materials, &mut self.shaders) {
            Ok(model) => {
                let index: usize = self.models.len();
                self.models.push(Model::OBJ(model));
                assert(self.models@.subrange(0, index as int) =~= old(self).models@);
                Ok(index)
            },
            Err(e) => Err(e),
        }
    }
}

} // verus!
