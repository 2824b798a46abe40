use modeling::collection::{Collection, GltfModel, Mesh, Model, ObjModel, Rungholt};
use modeling::mesh::{GeometryError, ObjMesh};
use modeling::model::LoadError;

fn triangle(name: &str) -> ObjMesh {
    ObjMesh {
        name: name.to_string(),
        positions: (1..10).collect(),
        texcoords: (10..16).collect(),
        normals: (20..29).collect(),
        indices: vec![2, 1, 0],
        material_id: None,
        tangents: vec![[7, 7, 7]],
        bitangents: vec![[8, 8, 8]],
    }
}

fn model(dirty: bool) -> Model {
    Model::OBJ(ObjModel { meshes: vec![], is_dirty: dirty })
}

#[test]
fn obj_model_is_assembled_and_waits_to_be_sent() {
    let m = ObjModel::load(&vec![triangle("a"), triangle("b")]).unwrap();
    assert!(m.is_dirty);
    assert!(m.update_buffers());
    assert_eq!(m.meshes.len(), 2);
    assert_eq!(m.meshes[1].name, "b");
    assert_eq!(m.meshes[1].indices, vec![2, 1, 0]);
    assert_eq!(m.meshes[1].num_elements, 3);
    assert_eq!(m.meshes[1].vertices, triangle("b").assemble().unwrap());
    assert_eq!(m.meshes[0].vertices[1].position, [4, 5, 6]);
    assert_eq!(m.meshes[0].vertices[1].tex_coords, [12, 13]);
    assert_eq!(m.meshes[0].vertices[1].normal, [23, 24, 25]);
    assert_eq!(m.meshes[0].vertices[1].tangent, [7, 7, 7]);
    assert_eq!(m.meshes[0].vertices[1].bitangent, [8, 8, 8]);
}

#[test]
fn obj_model_needs_no_material() {
    let mut source = triangle("a");
    source.material_id = Some(99);
    assert!(ObjModel::load(&vec![source]).is_ok());
}

#[test]
fn house_is_assembled_the_same_way() {
    let m = Rungholt::load(&vec![triangle("house")]).unwrap();
    assert!(m.is_dirty);
    assert!(m.update_buffers());
    assert_eq!(m.meshes[0].vertices, triangle("house").assemble().unwrap());
    assert!(Rungholt::load(&vec![]).unwrap().meshes.is_empty());
}

#[test]
fn first_unsound_mesh_fails_the_load() {
    let mut second = triangle("b");
    second.indices.push(0);
    let mut third = triangle("c");
    third.normals.clear();
    let source = vec![triangle("a"), second, third];
    let expected = LoadError::Geometry { mesh: 1, error: GeometryError::IndexCount };
    assert_eq!(ObjModel::load(&source).unwrap_err(), expected);
    assert_eq!(Rungholt::load(&source).unwrap_err(), expected);
}

#[test]
fn model_hands_out_its_meshes_whatever_its_origin() {
    let mesh = |name: &str| Mesh {
        name: name.to_string(),
        vertices: vec![],
        indices: vec![],
        num_elements: 0,
    };
    let obj = Model::OBJ(ObjModel { meshes: vec![mesh("o")], is_dirty: false });
    let gltf = Model::GLTF(GltfModel { meshes: vec![mesh("g")], is_dirty: true });
    let house = Model::RUNGHOLT(Rungholt { meshes: vec![mesh("r")], is_dirty: true });
    assert_eq!(obj.meshes()[0].name, "o");
    assert_eq!(gltf.meshes()[0].name, "g");
    assert_eq!(house.meshes()[0].name, "r");
    assert!(!obj.update_buffers());
    assert!(!gltf.update_buffers());
    assert!(!house.update_buffers());
    assert!(model(true).update_buffers());
}

#[test]
fn collection_keeps_models_by_name() {
    let mut c = Collection::new();
    assert_eq!(c.position("rungholt"), None);
    assert!(c.get("rungholt").is_none());
    c.add_model(Model::RUNGHOLT(Rungholt { meshes: vec![], is_dirty: true }), "rungholt");
    c.add_model(model(false), "cube");
    assert_eq!(c.position("rungholt"), Some(0));
    assert_eq!(c.position("cube"), Some(1));
    assert_eq!(c.position("cub"), None);
    assert!(matches!(c.get("rungholt"), Some(Model::RUNGHOLT(_))));
    assert!(matches!(c.get("cube"), Some(Model::OBJ(_))));
}

#[test]
fn model_takes_the_place_of_its_namesake() {
    let mut c = Collection::new();
    c.add_model(model(false), "a");
    c.add_model(model(false), "b");
    c.add_model(Model::GLTF(GltfModel { meshes: vec![], is_dirty: false }), "a");
    assert_eq!(c.position("a"), Some(0));
    assert_eq!(c.position("b"), Some(1));
    assert!(matches!(c.get("a"), Some(Model::GLTF(_))));
}

#[test]
fn collection_lists_the_models_to_send() {
    let mut c = Collection::new();
    assert_eq!(c.update_buffers(), vec![]);
    c.add_model(model(true), "a");
    c.add_model(model(false), "b");
    c.add_model(Model::RUNGHOLT(Rungholt { meshes: vec![], is_dirty: true }), "c");
    c.add_model(model(true), "d");
    assert_eq!(c.update_buffers(), vec![0, 3]);
}
