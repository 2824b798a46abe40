//! Models: meshes bound to the materials that they share through the
//! caches of the scene, and the loading of a model from what an OBJ file
//! states.

use crate::bytes::buffer_bytes;
use crate::bytes::in_machine_order;
use crate::cache::ResourceCache;
use crate::cache::served;
pub use crate::material::Material;
use crate::material::MaterialView;
use crate::material::ObjMaterial;
use crate::material::TextureSlot;
use crate::material::key_text;
use crate::material::lemma_key_names_one_material;
use crate::material::material_key;
use crate::mesh::GeometryError;
use crate::mesh::ObjMesh;
use crate::shader::Shader;
use crate::shader::program;
use crate::texture::TextureError;
pub use crate::vertex::ModelVertex;
pub use crate::vertex::Vertex;
use crate::vertex::vertex_words;
use crate::vertex::words_of;
use vstd::prelude::*;

verus! {

/// Why a model could not be loaded.
#[derive(Clone, Copy, Debug, PartialEq, Eq)]
#[allow(inconsistent_fields)]
pub enum LoadError {
    /// A texture file of a material was read but is no usable image.
    Texture { material: usize, slot: TextureSlot, error: TextureError },
    /// The number of a material does not fit in 32 bits.
    TooManyMaterials { material: usize },
    /// The geometry of a mesh is not sound.
    Geometry { mesh: usize, error: GeometryError },
    /// A mesh names no material, or one that its file does not have.
    NoMaterial { mesh: usize },
}

/// One mesh of a model: vertices, the triangles over them, and the
/// material that they are drawn with.
#[derive(Debug)]
pub struct Mesh {
    pub name: String,
    pub vertices: Vec<ModelVertex>,
    /// Three vertex numbers per triangle.
    pub indices: Vec<u32>,
    /// Number of indices.
    pub num_elements: u32,
    /// Handle of the material in the scene's material cache.
    pub material: usize,
}

impl Mesh {
    /// The content of the vertex buffer of the mesh: its vertices as bytes,
    /// 56 for each.
    pub fn vertex_buffer(&self) -> (bytes: Vec<u8>)
        ensures
            in_machine_order(vertex_words(self.vertices@, self.vertices@.len() as int), bytes@),
            bytes@.len() == 56 * self.vertices@.len(),
    {
        let words = words_of(&self.vertices);
        buffer_bytes(words.as_slice())
    }

    /// The content of the index buffer of the mesh: its indices as bytes,
    /// four for each.
    pub fn index_buffer(&self) -> (bytes: Vec<u8>)
        ensures
            in_machine_order(self.indices@, bytes@),
            bytes@.len() == 4 * self.indices@.len(),
    {
        buffer_bytes(self.indices.as_slice())
    }
}

/// A model read from an OBJ file.
#[derive(Debug)]
pub struct ObjModel {
    pub meshes: Vec<Mesh>,
}

/// A model read from a glTF file.
#[derive(Debug)]
pub struct GltfModel {
    pub meshes: Vec<Mesh>,
    pub materials: Vec<Material>,
}

/// A model of either origin.
#[derive(Debug)]
pub enum Model {
    OBJ(ObjModel),
    GLTF(GltfModel),
}

impl Model {
    /// The meshes of the model, in drawing order.
    pub open spec fn spec_meshes(&self) -> Seq<Mesh> {
        match self {
            Model::OBJ(m) => m.meshes@,
            Model::GLTF(m) => m.meshes@,
        }
    }

    /// The meshes of the model, in drawing order.
    pub fn meshes(&self) -> (meshes: &Vec<Mesh>)
        ensures
            meshes@ == self.spec_meshes(),
    {
        match self {
            Model::OBJ(m) => &m.meshes,
            Model::GLTF(m) => &m.meshes,
        }
    }
}

/// What an OBJ file and its material library state, with what reading the
/// texture files gave.
#[derive(Debug)]
pub struct ObjSource {
    /// Path of the OBJ file; the keys of its materials derive from it.
    pub path: String,
    pub meshes: Vec<ObjMesh>,
    pub materials: Vec<ObjMaterial>,
}

/// The first error in a list of checks, if any of them found one.
pub open spec fn first_error(errors: Seq<Option<LoadError>>) -> Option<LoadError>
    decreases errors.len(),
{
    if errors.len() == 0 {
        None
    } else if errors[0].is_some() {
        errors[0]
    } else {
        first_error(errors.drop_first())
    }
}

/// The first error is that of the first check that found one.
pub proof fn lemma_first_error(errors: Seq<Option<LoadError>>, i: int)
    requires
        0 <= i <= errors.len(),
        forall|k: int| 0 <= k < i ==> errors[k].is_none(),
    ensures
        i == errors.len() ==> first_error(errors).is_none(),
        i < errors.len() && errors[i].is_some() ==> first_error(errors) == errors[i],
    decreases i,
{
    if i > 0 {
        let rest = errors.drop_first();
        assert forall|k: int| 0 <= k < i - 1 implies rest[k].is_none() by {
            assert(rest[k] == errors[k + 1]);
        }
        lemma_first_error(rest, i - 1);
        if i < errors.len() {
            assert(rest[i - 1] == errors[i]);
        }
    }
}

/// The keys of a cache after a request for `key`.
pub open spec fn register(pre: Seq<Seq<char>>, key: Seq<char>) -> Seq<Seq<char>> {
    if pre.contains(key) {
        pre
    } else {
        pre.push(key)
    }
}

/// The keys of a cache after one request for each of `keys`, in order.
pub open spec fn register_all(pre: Seq<Seq<char>>, keys: Seq<Seq<char>>) -> Seq<Seq<char>>
    decreases keys.len(),
{
    if keys.len() == 0 {
        pre
    } else {
        register(register_all(pre, keys.drop_last()), keys.last())
    }
}

/// Requests only add: what a cache holds stays, under its handle, and every
/// key that was asked for is there afterwards.
pub proof fn lemma_register_all_grows(pre: Seq<Seq<char>>, keys: Seq<Seq<char>>)
    ensures
        pre.len() <= register_all(pre, keys).len(),
        forall|h: int| 0 <= h < pre.len() ==> register_all(pre, keys)[h] == pre[h],
        forall|i: int| 0 <= i < keys.len() ==> register_all(pre, keys).contains(#[trigger] keys[i]),
        pre.no_duplicates() ==> register_all(pre, keys).no_duplicates(),
    decreases keys.len(),
{
    if keys.len() > 0 {
        let front = keys.drop_last();
        let before = register_all(pre, front);
        let after = register_all(pre, keys);
        lemma_register_all_grows(pre, front);
        assert(after == register(before, keys.last()));
        assert forall|i: int| 0 <= i < keys.len() implies after.contains(#[trigger] keys[i]) by {
            if i < front.len() {
                assert(front[i] == keys[i]);
                let at = choose|at: int| 0 <= at < before.len() && before[at] == keys[i];
                assert(after[at] == keys[i]);
            } else if before.contains(keys.last()) {
            } else {
                assert(after[before.len() as int] == keys[i]);
            }
        }
        if pre.no_duplicates() && !before.contains(keys.last()) {
            assert forall|i: int, j: int|
                0 <= i < after.len() && 0 <= j < after.len() && i != j implies after[i] != after[j] by {
                if i < before.len() {
                    assert(before.contains(before[i]));
                }
                if j < before.len() {
                    assert(before.contains(before[j]));
                }
            }
        }
    }
}

/// Requests for keys that a cache holds change nothing.
pub proof fn lemma_register_all_known(pre: Seq<Seq<char>>, keys: Seq<Seq<char>>)
    requires
        forall|i: int| 0 <= i < keys.len() ==> pre.contains(#[trigger] keys[i]),
    ensures
        register_all(pre, keys) == pre,
    decreases keys.len(),
{
    if keys.len() > 0 {
        let front = keys.drop_last();
        assert forall|i: int| 0 <= i < front.len() implies pre.contains(#[trigger] front[i]) by {
            assert(front[i] == keys[i]);
        }
        lemma_register_all_known(pre, front);
        assert(pre.contains(keys[keys.len() - 1]));
    }
}

/// Loading the same materials once more adds nothing: after the first load
/// every key is known, so the second load finds every material in the
/// cache and shares it.
pub proof fn lemma_second_load_shares(pre: Seq<Seq<char>>, keys: Seq<Seq<char>>)
    ensures
        register_all(register_all(pre, keys), keys) == register_all(pre, keys),
{
    lemma_register_all_grows(pre, keys);
    lemma_register_all_known(register_all(pre, keys), keys);
}

/// How a material cache changes when materials with the keys `keys` and the
/// values `values` are registered in order: what was there stays, under its
/// handle, and each handle that is new stands for one of the materials,
/// under that material's key.
pub open spec fn materials_registered(
    pre: &ResourceCache<Material>,
    post: &ResourceCache<Material>,
    keys: Seq<Seq<char>>,
    values: Seq<MaterialView>,
) -> bool {
    &&& post.keys() == register_all(pre.keys(), keys)
    &&& pre.resources().len() <= post.resources().len()
    &&& forall|h: int| 0 <= h < pre.resources().len() ==> post.resources()[h] == pre.resources()[h]
    &&& forall|h: int|
        pre.resources().len() <= h < post.resources().len() ==> #[trigger] stands_for_one(
            post,
            h,
            keys,
            values,
        )
}

/// Handle `h` of `cache` stands for one of the materials `values`, under
/// that material's key.
pub open spec fn stands_for_one(
    cache: &ResourceCache<Material>,
    h: int,
    keys: Seq<Seq<char>>,
    values: Seq<MaterialView>,
) -> bool {
    exists|i: int|
        #![trigger keys[i]]
        0 <= i < keys.len() && keys[i] == cache.keys()[h] && cache.resources()[h]@ == values[i]
}

impl ObjSource {
    /// The key of material `i`: the path of the file and the number of the
    /// material.
    pub open spec fn key(&self, i: int) -> Seq<char> {
        key_text(self.path@, i as nat)
    }

    /// The keys of the materials, in order.
    pub open spec fn keys(&self) -> Seq<Seq<char>> {
        Seq::new(self.materials@.len(), |i: int| self.key(i))
    }

    /// The materials as they are registered when the shader program has the
    /// handle `shader`.
    pub open spec fn material_values(&self, shader: usize) -> Seq<MaterialView> {
        Seq::new(
            self.materials@.len(),
            |i: int| self.materials@[i].outcome(i as usize, shader).unwrap(),
        )
    }

    /// What is wrong with material `i`, if anything is.
    pub open spec fn material_error(&self, i: int) -> Option<LoadError> {
        match self.materials@[i].outcome(i as usize, 0) {
            Ok(_) => None,
            Err(e) => Some(e),
        }
    }

    /// What is wrong with mesh `j`, if anything is: its geometry, or a
    /// material that the file does not have.
    pub open spec fn mesh_error(&self, j: int) -> Option<LoadError> {
        match self.meshes@[j].geometry_error() {
            Some(error) => Some(LoadError::Geometry { mesh: j as usize, error }),
            None => match self.meshes@[j].material_id {
                Some(k) => if k < self.materials@.len() {
                    None
                } else {
                    Some(LoadError::NoMaterial { mesh: j as usize })
                },
                None => Some(LoadError::NoMaterial { mesh: j as usize }),
            },
        }
    }

    /// The checks of a load: the materials in order, then the meshes in
    /// order.
    pub open spec fn errors(&self) -> Seq<Option<LoadError>> {
        Seq::new(
            self.materials@.len() + self.meshes@.len(),
            |k: int|
                if k < self.materials@.len() {
                    self.material_error(k)
                } else {
                    self.mesh_error(k - self.materials@.len())
                },
        )
    }

    /// Why the source cannot be loaded, if it cannot.
    pub open spec fn load_error(&self) -> Option<LoadError> {
        first_error(self.errors())
    }

    /// Whether `mesh` is mesh `j` of the source, assembled.
    pub open spec fn assembled(&self, j: int, mesh: Mesh) -> bool {
        &&& mesh.name@ == self.meshes@[j].name@
        &&& mesh.vertices@ == self.meshes@[j].vertices()
        &&& mesh.indices@ == self.meshes@[j].indices@
        &&& mesh.num_elements == self.meshes@[j].indices@.len()
    }

    /// Whether `model` is this source loaded into caches that were `pre`
    /// before and are `post` after: nothing is wrong with the source, the
    /// caches took up its shader program and its materials, and every mesh
    /// is assembled and bound to the handle of its material.
    pub open spec fn loaded(
        &self,
        shader_path: Seq<char>,
        pre_materials: &ResourceCache<Material>,
        post_materials: &ResourceCache<Material>,
        pre_shaders: &ResourceCache<Shader>,
        post_shaders: &ResourceCache<Shader>,
        model: ObjModel,
    ) -> bool {
        &&& self.load_error().is_none()
        &&& shader_requested(pre_shaders, post_shaders, shader_path, self.materials@.len())
        &&& materials_registered(
            pre_materials,
            post_materials,
            self.keys(),
            self.material_values(slot_of(pre_shaders.keys(), shader_path) as usize),
        )
        &&& model.meshes@.len() == self.meshes@.len()
        &&& forall|j: int|
            0 <= j < model.meshes@.len() ==> {
                let mesh = #[trigger] model.meshes@[j];
                &&& self.assembled(j, mesh)
                &&& mesh.material < post_materials.keys().len()
                &&& post_materials.keys()[mesh.material as int] == self.key(
                    self.meshes@[j].material_id.unwrap() as int,
                )
            }
    }

    /// Makes all materials, in order.
    fn build_materials(&self, shader: usize) -> (r: Result<Vec<Material>, LoadError>)
        ensures
            match r {
                Ok(built) => {
                    &&& built@.len() == self.materials@.len()
                    &&& forall|i: int|
                        0 <= i < built@.len() ==> (#[trigger] self.material_error(i)).is_none()
                    &&& forall|i: int|
                        0 <= i < built@.len() ==> self.materials@[i].outcome(i as usize, shader)
                            == Ok::<MaterialView, LoadError>((#[trigger] built@[i])@)
                },
                Err(e) => exists|i: int|
                    0 <= i < self.materials@.len() && self.material_error(i) == Some(e) && (
                    forall|k: int| 0 <= k < i ==> self.material_error(k).is_none()),
            },
    {
        let n: usize = self.materials.len();
        let mut built: Vec<Material> = Vec::new();
        let mut i: usize = 0;
        while i < n
            invariant
                i <= n,
                n == self.materials@.len(),
                built@.len() == i,
                forall|k: int| 0 <= k < i ==> (#[trigger] self.material_error(k)).is_none(),
                forall|k: int|
                    0 <= k < i ==> self.materials@[k].outcome(k as usize, shader) == Ok::<
                        MaterialView,
                        LoadError,
                    >((#[trigger] built@[k])@),
            decreases n - i,
        {
            match self.materials[i].build(i, shader) {
                Ok(material) => {
                    built.push(material);
                },
                Err(e) => {
                    assert(self.material_error(i as int) == Some(e));
                    return Err(e);
                },
            }
            i += 1;
        }
        Ok(built)
    }

    /// Assembles all meshes, in order; each names its material by the
    /// material's number in the file.
    fn build_meshes(&self) -> (r: Result<Vec<Mesh>, LoadError>)
        ensures
            match r {
                Ok(meshes) => {
                    &&& meshes@.len() == self.meshes@.len()
                    &&& forall|j: int|
                        0 <= j < meshes@.len() ==> (#[trigger] self.mesh_error(j)).is_none()
                    &&& forall|j: int|
                        0 <= j < meshes@.len() ==> self.assembled(j, #[trigger] meshes@[j])
                            && self.meshes@[j].material_id == Some(meshes@[j].material)
                },
                Err(e) => exists|j: int|
                    0 <= j < self.meshes@.len() && self.mesh_error(j) == Some(e) && (forall|k: int|
                        0 <= k < j ==> self.mesh_error(k).is_none()),
            },
    {
        let n: usize = self.meshes.len();
        let materials: usize = self.materials.len();
        let mut meshes: Vec<Mesh> = Vec::new();
        let mut j: usize = 0;
        while j < n
            invariant
                j <= n,
                n == self.meshes@.len(),
                materials == self.materials@.len(),
                meshes@.len() == j,
                forall|k: int| 0 <= k < j ==> (#[trigger] self.mesh_error(k)).is_none(),
                forall|k: int|
                    0 <= k < j ==> self.assembled(k, #[trigger] meshes@[k])
                        && self.meshes@[k].material_id == Some(meshes@[k].material),
            decreases n - j,
        {
            let source = &self.meshes[j];
            let vertices = match source.assemble() {
                Ok(vertices) => vertices,
                Err(error) => {
                    assert(self.mesh_error(j as int) == Some(LoadError::Geometry { mesh: j, error }));
                    return Err(LoadError::Geometry { mesh: j, error });
                },
            };
            let material: usize = match source.material_id {
                Some(k) => k,
                None => {
                    assert(self.mesh_error(j as int) == Some(LoadError::NoMaterial { mesh: j }));
                    return Err(LoadError::NoMaterial { mesh: j });
                },
            };
            if material >= materials {
                assert(self.mesh_error(j as int) == Some(LoadError::NoMaterial { mesh: j }));
                return Err(LoadError::NoMaterial { mesh: j });
            }
            let indices = source.indices.clone();
            assert(indices@ =~= source.indices@);
            meshes.push(
                Mesh {
                    name: source.name.clone(),
                    vertices,
                    num_elements: indices.len() as u32,
                    indices,
                    material,
                },
            );
            j += 1;
        }
        Ok(meshes)
    }
}

/// The materials of a source have keys of their own: no two of them share
/// a key, so each handle that a load adds stands for exactly one of them.
pub proof fn lemma_source_keys_differ(source: ObjSource)
    ensures
        source.keys().no_duplicates(),
{
    assert forall|i: int, j: int|
        0 <= i < source.keys().len() && 0 <= j < source.keys().len() && i != j implies source.keys()[i]
        != source.keys()[j] by {
        if source.keys()[i] == source.keys()[j] {
            lemma_key_names_one_material(source.path@, i as nat, source.path@, j as nat);
        }
    }
}

/// Files have materials of their own: a material of one file and a material
/// of a file at another path never share a key, whatever their names and
/// numbers, so neither is taken for the other.
pub proof fn lemma_files_keep_their_materials(first: ObjSource, i: int, second: ObjSource, j: int)
    requires
        first.path@ != second.path@,
        0 <= i,
        0 <= j,
    ensures
        first.key(i) != second.key(j),
{
    if first.key(i) == second.key(j) {
        lemma_key_names_one_material(first.path@, i as nat, second.path@, j as nat);
    }
}

/// The same items in the opposite order.
fn reversed<T>(items: Vec<T>) -> (r: Vec<T>)
    ensures
        r@ == items@.reverse(),
{
    let mut items = items;
    let ghost all = items@;
    let mut r: Vec<T> = Vec::new();
    while items.len() > 0
        invariant
            items@.len() <= all.len(),
            items@ == all.subrange(0, items@.len() as int),
            r@.len() == all.len() - items@.len(),
            forall|k: int| 0 <= k < r@.len() ==> r@[k] == all[all.len() - 1 - k],
        decreases items@.len(),
    {
        let last = items.pop().unwrap();
        r.push(last);
    }
    assert(r@ =~= all.reverse());
    r
}

/// The handle that a request for `key` is answered with.
pub open spec fn slot_of(pre: Seq<Seq<char>>, key: Seq<char>) -> int {
    if pre.contains(key) {
        pre.index_of(key)
    } else {
        pre.len() as int
    }
}

/// A request is served with the handle that `slot_of` names.
pub proof fn lemma_served_slot(pre: Seq<Seq<char>>, key: Seq<char>, post: Seq<Seq<char>>, handle: int)
    requires
        pre.no_duplicates(),
        served(pre, key, post, handle),
    ensures
        handle == slot_of(pre, key),
        post == register(pre, key),
{
    if pre.contains(key) {
        let at = pre.index_of(key);
        assert(pre[at] == key);
    }
}

/// Registers the materials `built`, those of `source` in order, and returns
/// their handles.
fn register_materials(
    materials: &mut ResourceCache<Material>,
    source: &ObjSource,
    built: Vec<Material>,
    Ghost(values): Ghost<Seq<MaterialView>>,
) -> (handles: Vec<usize>)
    requires
        old(materials).wf(),
        built@.len() == source.materials@.len(),
        values.len() == built@.len(),
        forall|i: int| 0 <= i < built@.len() ==> (#[trigger] built@[i])@ == values[i],
    ensures
        final(materials).wf(),
        materials_registered(old(materials), final(materials), source.keys(), values),
        handles@.len() == source.materials@.len(),
        forall|i: int|
            0 <= i < handles@.len() ==> (#[trigger] handles@[i]) < final(materials).keys().len()
                && final(materials).keys()[handles@[i] as int] == source.key(i),
{
    let n: usize = built.len();
    let ghost all = built@;
    let mut pending = reversed(built);
    let mut handles: Vec<usize> = Vec::new();
    let mut i: usize = 0;
    assert(source.keys().subrange(0, 0) =~= Seq::<Seq<char>>::empty());
    while i < n
        invariant
            i <= n,
            n == source.materials@.len(),
            n == all.len(),
            values.len() == n,
            forall|k: int| 0 <= k < n ==> (#[trigger] all[k])@ == values[k],
            pending@.len() == n - i,
            forall|k: int| 0 <= k < n - i ==> pending@[k] == all[n - 1 - k],
            materials.wf(),
            materials_registered(
                old(materials),
                materials,
                source.keys().subrange(0, i as int),
                values.subrange(0, i as int),
            ),
            handles@.len() == i,
            forall|k: int|
                0 <= k < i ==> (#[trigger] handles@[k]) < materials.keys().len()
                    && materials.keys()[handles@[k] as int] == source.key(k),
        decreases n - i,
    {
        let material = pending.pop().unwrap();
        assert(material == all[i as int]);
        let key = material_key(source.path.as_str(), i);
        assert(key@ == source.key(i as int));
        let ghost before = *materials;
        let ghost value = material;
        let builder = move || -> (r: Result<Material, LoadError>)
            ensures
                r matches Ok(made) && made == value,
            {
                let made: Result<Material, LoadError> = Ok(material);
                made
            };
        let handle: usize = match materials.get_or_create(key.as_str(), builder) {
            Ok(h) => h,
            Err(_) => {
                assert(false);
                0
            },
        };
        handles.push(handle);
        proof {
            let done = source.keys().subrange(0, i as int);
            let next = source.keys().subrange(0, i + 1);
            assert(next.drop_last() =~= done);
            assert(next.last() == key@);
            lemma_served_slot(before.keys(), key@, materials.keys(), handle as int);
            crate::cache::lemma_served_keeps_order(before.keys(), key@, materials.keys(), handle as int);
            assert(values.subrange(0, i + 1)[i as int] == values[i as int]);
            assert forall|h: int|
                old(materials).resources().len() <= h < materials.resources().len() implies #[trigger] stands_for_one(
                materials,
                h,
                next,
                values.subrange(0, i + 1),
            ) by {
                if h < before.resources().len() {
                    assert(materials.resources()[h] == before.resources()[h]);
                    assert(stands_for_one(&before, h, done, values.subrange(0, i as int)));
                    let k = choose|k: int|
                        #![trigger done[k]]
                        0 <= k < done.len() && done[k] == before.keys()[h] && before.resources()[h]@
                            == values.subrange(0, i as int)[k];
                    assert(next[k] == done[k]);
                    assert(values.subrange(0, i + 1)[k] == values.subrange(0, i as int)[k]);
                } else {
                    assert(next[i as int] == key@);
                    assert(h == handle);
                    assert(materials.resources()[h] == value);
                }
            }
            assert(materials.keys() == register_all(old(materials).keys(), next));
            assert(old(materials).resources().len() <= materials.resources().len());
            assert(forall|h: int|
                0 <= h < old(materials).resources().len() ==> materials.resources()[h] == old(
                    materials,
                ).resources()[h]);
        }
        i += 1;
    }
    assert(source.keys().subrange(0, n as int) =~= source.keys());
    assert(values.subrange(0, n as int) =~= values);
    handles
}

/// Label of the shader program that OBJ models are drawn with.
pub const OBJ_SHADER_LABEL: &'static str = "obj vertex shader";

/// How the shader cache changes when a model with `count` materials is
/// loaded: a model with materials asks once for the program at
/// `shader_path`, a model without asks for nothing.
pub open spec fn shader_requested(
    pre: &ResourceCache<Shader>,
    post: &ResourceCache<Shader>,
    shader_path: Seq<char>,
    count: nat,
) -> bool {
    if count == 0 || pre.keys().contains(shader_path) {
        post.keys() == pre.keys() && post.resources() == pre.resources()
    } else {
        &&& post.keys() == pre.keys().push(shader_path)
        &&& post.resources().len() == pre.resources().len() + 1
        &&& post.resources() == pre.resources().push(post.resources().last())
        &&& post.resources().last()@ == program(OBJ_SHADER_LABEL@, shader_path)
    }
}

impl ObjModel {
    /// Loads a model from what its OBJ file states.
    ///
    /// Every material is registered in `materials` under its key, behind the
    /// one shader program at `shader_path` in `shaders`; what the caches hold
    /// already is shared, not built again. Every mesh is assembled and bound
    /// to the handle of its material. If anything is wrong with a material or
    /// a mesh, the first such thing is reported and both caches stay as they
    /// were.
    pub fn load(
        source: &ObjSource,
        shader_path: &str,
        materials: &mut ResourceCache<Material>,
        shaders: &mut ResourceCache<Shader>,
    ) -> (r: Result<ObjModel, LoadError>)
        requires
            old(materials).wf(),
            old(shaders).wf(),
        ensures
            final(materials).wf(),
            final(shaders).wf(),
            match r {
                Ok(model) => source.loaded(
                    shader_path@,
                    old(materials),
                    final(materials),
                    old(shaders),
                    final(shaders),
                    model,
                ),
                Err(e) => {
                    &&& source.load_error() == Some(e)
                    &&& final(materials).keys() == old(materials).keys()
                    &&& final(materials).resources() == old(materials).resources()
                    &&& final(shaders).keys() == old(shaders).keys()
                    &&& final(shaders).resources() == old(shaders).resources()
                },
            },
    {
        let shader: usize = match shaders.find(shader_path) {
            Some(h) => h,
            None => shaders.len(),
        };
        assert(shader == slot_of(shaders.keys(), shader_path@));
        let built = match source.build_materials(shader) {
            Ok(built) => built,
            Err(e) => {
                proof {
                    let i = choose|i: int|
                        0 <= i < source.materials@.len() && source.material_error(i) == Some(e) && (
                        forall|k: int| 0 <= k < i ==> source.material_error(k).is_none());
                    assert forall|k: int| 0 <= k < i implies source.errors()[k].is_none() by {
                        assert(source.material_error(k).is_none());
                    }
                    lemma_first_error(source.errors(), i);
                }
                return Err(e);
            },
        };
        let mut meshes = match source.build_meshes() {
            Ok(meshes) => meshes,
            Err(e) => {
                proof {
                    let m = source.materials@.len() as int;
                    let j = choose|j: int|
                        0 <= j < source.meshes@.len() && source.mesh_error(j) == Some(e) && (forall|
                            k: int,
                        |
                            0 <= k < j ==> source.mesh_error(k).is_none());
                    assert forall|k: int| 0 <= k < m + j implies source.errors()[k].is_none() by {
                        if k < m {
                            assert(source.material_error(k).is_none());
                        } else {
                            assert(source.mesh_error(k - m).is_none());
                        }
                    }
                    lemma_first_error(source.errors(), m + j);
                }
                return Err(e);
            },
        };
        proof {
            let m = source.materials@.len() as int;
            let n = source.meshes@.len() as int;
            assert forall|k: int| 0 <= k < m + n implies source.errors()[k].is_none() by {
                if k < m {
                    assert(source.material_error(k).is_none());
                } else {
                    assert(source.mesh_error(k - m).is_none());
                }
            }
            lemma_first_error(source.errors(), m + n);
        }
        if source.materials.len() > 0 {
            let ghost before = *shaders;
            let builder = || -> (r: Result<Shader, LoadError>)
                ensures
                    r matches Ok(made) && made@ == program(OBJ_SHADER_LABEL@, shader_path@),
                {
                    let made: Result<Shader, LoadError> = Ok(
                        Shader::new(OBJ_SHADER_LABEL, shader_path),
                    );
                    made
                };
            match shaders.get_or_create(shader_path, builder) {
                Ok(h) => {
                    proof {
                        lemma_served_slot(before.keys(), shader_path@, shaders.keys(), h as int);
                        if !before.keys().contains(shader_path@) {
                            assert(shaders.resources().last() == shaders.resources()[h as int]);
                        }
                    }
                },
                Err(_) => {
                    assert(false);
                },
            }
        }
        let ghost values = source.material_values(shader);
        assert forall|i: int| 0 <= i < built@.len() implies (#[trigger] built@[i])@ == values[i] by {
            assert(source.materials@[i].outcome(i as usize, shader) == Ok::<MaterialView, LoadError>(
                built@[i]@,
            ));
        }
        let handles = register_materials(materials, source, built, Ghost(values));
        let count: usize = meshes.len();
        let mut j: usize = 0;
        while j < count
            invariant
                j <= count,
                count == meshes@.len(),
                count == source.meshes@.len(),
                handles@.len() == source.materials@.len(),
                forall|i: int|
                    0 <= i < handles@.len() ==> (#[trigger] handles@[i]) < materials.keys().len()
                        && materials.keys()[handles@[i] as int] == source.key(i),
                forall|k: int| 0 <= k < count ==> source.assembled(k, #[trigger] meshes@[k]),
                forall|k: int|
                    0 <= k < count ==> (#[trigger] source.mesh_error(k)).is_none(),
                forall|k: int|
                    j <= k < count ==> source.meshes@[k].material_id == Some(
                        (#[trigger] meshes@[k]).material,
                    ),
                forall|k: int|
                    0 <= k < j ==> (#[trigger] meshes@[k]).material < materials.keys().len()
                        && materials.keys()[meshes@[k].material as int] == source.key(
                        source.meshes@[k].material_id.unwrap() as int,
                    ),
            decreases count - j,
        {
            let ghost before = meshes@;
            let number: usize = meshes[j].material;
            assert(source.mesh_error(j as int).is_none());
            let handle: usize = handles[number];
            meshes[j].material = handle;
            assert forall|k: int| 0 <= k < count implies source.assembled(k, #[trigger] meshes@[k]) by {
                assert(source.assembled(k, before[k]));
            }
            j += 1;
        }
        Ok(ObjModel { meshes })
    }
}

} // verus!
