//! A collection of models by name, held apart from what is drawn: meshes
//! with their vertices and indices, not yet bound to materials.

use crate::model::first_error;
use crate::model::lemma_first_error;
use crate::mesh::GeometryError;
use crate::model::LoadError;
pub use crate::vertex::ModelVertex;
use crate::mesh::ObjMesh;
use vstd::prelude::*;

verus! {

/// One mesh of a model: vertices and the triangles over them.
#[derive(Debug)]
pub struct Mesh {
    pub name: String,
    pub vertices: Vec<ModelVertex>,
    /// Three vertex numbers per triangle.
    pub indices: Vec<u32>,
    /// Number of indices.
    pub num_elements: u32,
}

/// A model read from an OBJ file.
#[derive(Debug)]
pub struct ObjModel {
    pub meshes: Vec<Mesh>,
    /// Whether the meshes have yet to be sent to the GPU.
    pub is_dirty: bool,
}

/// A model read from a glTF file.
#[derive(Debug)]
pub struct GltfModel {
    pub meshes: Vec<Mesh>,
    pub is_dirty: bool,
}

/// The house model that comes with the viewer.
#[derive(Debug)]
pub struct Rungholt {
    pub meshes: Vec<Mesh>,
    /// Whether the meshes have yet to be sent to the GPU.
    pub is_dirty: bool,
}

/// A model of any origin.
#[derive(Debug)]
pub enum Model {
    OBJ(ObjModel),
    GLTF(GltfModel),
    RUNGHOLT(Rungholt),
}

/// Models by name.
#[derive(Debug)]
pub struct Collection {
    names: Vec<String>,
    models: Vec<Model>,
}

/// Whether `mesh` is `source`, assembled.
pub open spec fn assembled(source: ObjMesh, mesh: Mesh) -> bool {
    &&& mesh.name@ == source.name@
    &&& mesh.vertices@ == source.vertices()
    &&& mesh.indices@ == source.indices@
    &&& mesh.num_elements == source.indices@.len()
}

/// What is wrong with mesh `j` of `source`, if anything is.
pub open spec fn mesh_error(source: Seq<ObjMesh>, j: int) -> Option<LoadError> {
    match source[j].geometry_error() {
        Some(error) => Some(LoadError::Geometry { mesh: j as usize, error }),
        None => None,
    }
}

/// The checks of a load: the meshes in order.
pub open spec fn mesh_errors(source: Seq<ObjMesh>) -> Seq<Option<LoadError>> {
    Seq::new(source.len(), |j: int| mesh_error(source, j))
}

/// Whether `meshes` are the meshes of `source`, assembled in order.
pub open spec fn all_assembled(source: Seq<ObjMesh>, meshes: Seq<Mesh>) -> bool {
    &&& meshes.len() == source.len()
    &&& forall|j: int| 0 <= j < source.len() ==> assembled(source[j], #[trigger] meshes[j])
}

/// Assembles the meshes of `source` in order, or reports the first mesh
/// whose geometry is not sound.
pub fn assemble_all(source: &Vec<ObjMesh>) -> (r: Result<Vec<Mesh>, LoadError>)
    ensures
        match r {
            Ok(meshes) => first_error(mesh_errors(source@)).is_none() && all_assembled(
                source@,
                meshes@,
            ),
            Err(e) => first_error(mesh_errors(source@)) == Some(e),
        },
{
    let n: usize = source.len();
    let mut meshes: Vec<Mesh> = Vec::new();
    let mut j: usize = 0;
    while j < n
        invariant
            j <= n,
            n == source@.len(),
            meshes@.len() == j,
            forall|k: int| 0 <= k < j ==> (#[trigger] mesh_errors(source@)[k]).is_none(),
            forall|k: int| 0 <= k < j ==> assembled(source@[k], #[trigger] meshes@[k]),
        decreases n - j,
    {
        let mesh = &source[j];
        let vertices = match mesh.assemble() {
            Ok(vertices) => vertices,
            Err(error) => {
                proof {
                    assert(mesh_errors(source@)[j as int] == Some(
                        LoadError::Geometry { mesh: j, error },
                    ));
                    lemma_first_error(mesh_errors(source@), j as int);
                }
                return Err(LoadError::Geometry { mesh: j, error });
            },
        };
        let indices = mesh.indices.clone();
        assert(indices@ =~= mesh.indices@);
        meshes.push(
            Mesh { name: mesh.name.clone(), vertices, num_elements: indices.len() as u32, indices },
        );
        assert(mesh_errors(source@)[j as int].is_none());
        j += 1;
    }
    proof {
        lemma_first_error(mesh_errors(source@), n as int);
    }
    Ok(meshes)
}

impl ObjModel {
    /// Loads a model from the meshes that its OBJ file states. The model
    /// has yet to be sent to the GPU.
    pub fn load(source: &Vec<ObjMesh>) -> (r: Result<ObjModel, LoadError>)
        ensures
            match r {
                Ok(model) => first_error(mesh_errors(source@)).is_none() && all_assembled(
                    source@,
                    model.meshes@,
                ) && model.is_dirty,
                Err(e) => first_error(mesh_errors(source@)) == Some(e),
            },
    {
        match assemble_all(source) {
            Ok(meshes) => Ok(ObjModel { meshes, is_dirty: true }),
            Err(e) => Err(e),
        }
    }

    /// Says whether the meshes have yet to be sent to the GPU.
    pub fn update_buffers(&self) -> (due: bool)
        ensures
            due == self.is_dirty,
    {
        self.is_dirty
    }
}

impl Rungholt {
    /// Loads the house model from the meshes that its OBJ file states. The
    /// model has yet to be sent to the GPU.
    pub fn load(source: &Vec<ObjMesh>) -> (r: Result<Rungholt, LoadError>)
        ensures
            match r {
                Ok(model) => first_error(mesh_errors(source@)).is_none() && all_assembled(
                    source@,
                    model.meshes@,
                ) && model.is_dirty,
                Err(e) => first_error(mesh_errors(source@)) == Some(e),
            },
    {
        match assemble_all(source) {
            Ok(meshes) => Ok(Rungholt { meshes, is_dirty: true }),
            Err(e) => Err(e),
        }
    }

    /// Says whether the meshes have yet to be sent to the GPU.
    pub fn update_buffers(&self) -> (due: bool)
        ensures
            due == self.is_dirty,
    {
        self.is_dirty
    }
}

impl Model {
    /// The meshes of the model.
    pub open spec fn spec_meshes(&self) -> Seq<Mesh> {
        match self {
            Model::OBJ(m) => m.meshes@,
            Model::GLTF(m) => m.meshes@,
            Model::RUNGHOLT(m) => m.meshes@,
        }
    }

    /// Whether the model has meshes to send to the GPU. Only models read
    /// from OBJ files are sent this way.
    pub open spec fn due(&self) -> bool {
        match self {
            Model::OBJ(m) => m.is_dirty,
            Model::GLTF(_) => false,
            Model::RUNGHOLT(_) => false,
        }
    }

    /// The meshes of the model.
    pub fn meshes(&self) -> (meshes: &Vec<Mesh>)
        ensures
            meshes@ == self.spec_meshes(),
    {
        match self {
            Model::OBJ(m) => &m.meshes,
            Model::GLTF(m) => &m.meshes,
            Model::RUNGHOLT(m) => &m.meshes,
        }
    }

    /// Says whether the model has meshes to send to the GPU.
    pub fn update_buffers(&self) -> (due: bool)
        ensures
            due == self.due(),
    {
        match self {
            Model::OBJ(m) => m.update_buffers(),
            Model::GLTF(_) => false,
            Model::RUNGHOLT(_) => false,
        }
    }
}

impl Collection {
    /// The names of the models, in the order in which they were first
    /// added.
    pub closed spec fn names(&self) -> Seq<Seq<char>> {
        Seq::new(self.names@.len(), |i: int| self.names@[i]@)
    }

    /// The models, each at the position of its name.
    pub closed spec fn models(&self) -> Seq<Model> {
        self.models@
    }

    /// Every name has its model, and no name occurs twice.
    pub open spec fn wf(&self) -> bool {
        &&& self.names().len() == self.models().len()
        &&& self.names().no_duplicates()
    }

    /// An empty collection.
    pub fn new() -> (collection: Collection)
        ensures
            collection.wf(),
            collection.names().len() == 0,
    {
        Collection { names: Vec::new(), models: Vec::new() }
    }

    /// The position of the model named `key`, if there is one.
    pub fn position(&self, key: &str) -> (found: Option<usize>)
        requires
            self.wf(),
        ensures
            match found {
                Some(i) => i < self.names().len() && self.names()[i as int] == key@,
                None => !self.names().contains(key@),
            },
    {
        let wanted = String::from_str(key);
        let n: usize = self.names.len();
        let mut i: usize = 0;
        while i < n
            invariant
                i <= n,
                n == self.names@.len(),
                wanted@ == key@,
                forall|j: int| 0 <= j < i ==> self.names()[j] != key@,
            decreases n - i,
        {
            if self.names[i] == wanted {
                assert(self.names()[i as int] == key@);
                return Some(i);
            }
            i += 1;
        }
        None
    }

    /// The model named `key`, if there is one.
    pub fn get(&self, key: &str) -> (model: Option<&Model>)
        requires
            self.wf(),
        ensures
            match model {
                Some(m) => exists|i: int|
                    0 <= i < self.names().len() && self.names()[i] == key@ && self.models()[i]
                        == *m,
                None => !self.names().contains(key@),
            },
    {
        match self.position(key) {
            Some(i) => Some(&self.models[i]),
            None => None,
        }
    }

    /// Puts `model` into the collection under the name `key`, in place of
    /// the model that had the name, if one had.
    pub fn add_model(&mut self, model: Model, key: &str)
        requires
            old(self).wf(),
        ensures
            final(self).wf(),
            if old(self).names().contains(key@) {
                &&& final(self).names() == old(self).names()
                &&& final(self).models() == old(self).models().update(
                    old(self).names().index_of(key@),
                    model,
                )
            } else {
                &&& final(self).names() == old(self).names().push(key@)
                &&& final(self).models() == old(self).models().push(model)
            },
    {
        match self.position(key) {
            Some(i) => {
                let ghost at = self.names().index_of(key@);
                assert(self.names().contains(key@));
                assert(self.names()[at] == key@);
                assert(at == i);
                let ghost before = self.names();
                self.models[i] = model;
                assert(self.names() =~= before);
            },
            None => {
                let ghost before = self.names();
                self.names.push(String::from_str(key));
                self.models.push(model);
                assert(self.names() =~= before.push(key@));
                assert forall|i: int, j: int|
                    0 <= i < self.names().len() && 0 <= j < self.names().len() && i
                        != j implies self.names()[i] != self.names()[j] by {
                    if i < before.len() {
                        assert(before.contains(before[i]));
                    }
                    if j < before.len() {
                        assert(before.contains(before[j]));
                    }
                }
            },
        }
    }

    /// The positions of the models that have meshes to send to the GPU, in
    /// rising order.
    pub fn update_buffers(&self) -> (due: Vec<usize>)
        requires
            self.wf(),
        ensures
            forall|k: int| 0 <= k < due@.len() ==> due@[k] < self.models().len() && self.models()[due@[k] as int].due(),
            forall|i: int|
                0 <= i < self.models().len() && self.models()[i].due() ==> due@.contains(i as usize),
            forall|k: int, l: int| 0 <= k < l < due@.len() ==> due@[k] < due@[l],
    {
        let n: usize = self.models.len();
        let mut due: Vec<usize> = Vec::new();
        let mut i: usize = 0;
        while i < n
            invariant
                i <= n,
                n == self.models@.len(),
                forall|k: int| 0 <= k < due@.len() ==> due@[k] < i && self.models()[due@[k] as int].due(),
                forall|j: int|
                    0 <= j < i && self.models()[j].due() ==> due@.contains(j as usize),
                forall|k: int, l: int| 0 <= k < l < due@.len() ==> due@[k] < due@[l],
            decreases n - i,
        {
            if self.models[i].update_buffers() {
                let ghost before = due@;
                due.push(i);
                assert forall|j: int|
                    0 <= j < i + 1 && self.models()[j].due() implies due@.contains(j as usize) by {
                    if j < i {
                        assert(before.contains(j as usize));
                        let k = choose|k: int| 0 <= k < before.len() && before[k] == j as usize;
                        assert(due@[k] == j as usize);
                    } else {
                        assert(due@[due@.len() - 1] == j as usize);
                    }
                }
            }
            i += 1;
        }
        due
    }
}

} // verus!
