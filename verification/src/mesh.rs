//! The geometry of a mesh as an OBJ file states it, and its assembly into
//! vertices.
//!
//! Tangents and bitangents come per triangle and are written to the three
//! corners of each triangle in turn, so a vertex that several triangles
//! share carries those of the last one.

use crate::vertex::ModelVertex;
use vstd::prelude::*;

verus! {

/// One sub-mesh as an OBJ file states it, triangulated and with one index
/// per vertex.
#[derive(Debug)]
pub struct ObjMesh {
    pub name: String,
    /// Three words per vertex.
    pub positions: Vec<u32>,
    /// Two words per vertex, the second counted from the top edge of the
    /// texture.
    pub texcoords: Vec<u32>,
    /// Three words per vertex.
    pub normals: Vec<u32>,
    /// Three vertex numbers per triangle.
    pub indices: Vec<u32>,
    /// Number of the mesh's material among the materials of its file.
    pub material_id: Option<usize>,
    /// One tangent per triangle.
    pub tangents: Vec<[u32; 3]>,
    /// One bitangent per triangle.
    pub bitangents: Vec<[u32; 3]>,
}

/// What is wrong with the geometry of a mesh.
#[derive(Clone, Copy, Debug, PartialEq, Eq)]
pub enum GeometryError {
    /// There are fewer texture coordinates or normals than vertices.
    MissingAttributes,
    /// The indices do not come in threes.
    IndexCount,
    /// An index names a vertex that the mesh does not have.
    IndexOutOfRange,
    /// The number of indices does not fit in 32 bits.
    TooManyIndices,
    /// There is not one tangent and one bitangent for each triangle.
    TangentCount,
}

/// Whether triangle `t` of `indices` has vertex `v` as a corner.
pub open spec fn touches(indices: Seq<u32>, t: int, v: int) -> bool {
    indices[3 * t] == v || indices[3 * t + 1] == v || indices[3 * t + 2] == v
}

/// The last of the first `upto` triangles that has vertex `v` as a corner.
pub open spec fn last_triangle(indices: Seq<u32>, v: int, upto: int) -> Option<int>
    decreases upto,
{
    if upto <= 0 {
        None
    } else if touches(indices, upto - 1, v) {
        Some(upto - 1)
    } else {
        last_triangle(indices, v, upto - 1)
    }
}

/// The vector that the last of the first `upto` triangles at vertex `v`
/// brings, zero where no triangle has the vertex.
pub open spec fn scattered(per_triangle: Seq<[u32; 3]>, indices: Seq<u32>, v: int, upto: int)
    -> [u32; 3] {
    match last_triangle(indices, v, upto) {
        Some(t) => per_triangle[t],
        None => [0u32, 0u32, 0u32],
    }
}

impl ObjMesh {
    /// Number of vertices.
    pub open spec fn vertex_count(&self) -> int {
        self.positions@.len() as int / 3
    }

    /// Number of triangles.
    pub open spec fn triangle_count(&self) -> int {
        self.indices@.len() as int / 3
    }

    /// The first thing wrong with vertices and indices, if anything is.
    pub open spec fn shape_error(&self) -> Option<GeometryError> {
        if self.texcoords@.len() < 2 * self.vertex_count() || self.normals@.len() < 3
            * self.vertex_count() {
            Some(GeometryError::MissingAttributes)
        } else if self.indices@.len() % 3 != 0 {
            Some(GeometryError::IndexCount)
        } else if exists|i: int| 0 <= i < self.indices@.len() && self.indices@[i] >= self.vertex_count() {
            Some(GeometryError::IndexOutOfRange)
        } else if self.indices@.len() > u32::MAX {
            Some(GeometryError::TooManyIndices)
        } else {
            None
        }
    }

    /// The first thing wrong with the mesh, if anything is.
    pub open spec fn geometry_error(&self) -> Option<GeometryError> {
        if self.shape_error().is_some() {
            self.shape_error()
        } else if self.tangents@.len() != self.triangle_count() || self.bitangents@.len()
            != self.triangle_count() {
            Some(GeometryError::TangentCount)
        } else {
            None
        }
    }

    /// Vertex `v` of the assembled mesh: its own position, texture
    /// coordinates and normal, and the tangent and bitangent of the last
    /// triangle that has it as a corner.
    pub open spec fn vertex(&self, v: int) -> ModelVertex {
        ModelVertex {
            position: [self.positions@[3 * v], self.positions@[3 * v + 1], self.positions@[3 * v + 2]],
            tex_coords: [self.texcoords@[2 * v], self.texcoords@[2 * v + 1]],
            normal: [self.normals@[3 * v], self.normals@[3 * v + 1], self.normals@[3 * v + 2]],
            tangent: scattered(self.tangents@, self.indices@, v, self.triangle_count()),
            bitangent: scattered(self.bitangents@, self.indices@, v, self.triangle_count()),
        }
    }

    /// The vertices of the assembled mesh.
    pub open spec fn vertices(&self) -> Seq<ModelVertex> {
        Seq::new(self.vertex_count() as nat, |v: int| self.vertex(v))
    }

    /// Checks vertices and indices: every vertex has its texture coordinates
    /// and its normal, the indices come in threes, name vertices of the mesh
    /// and can be counted in 32 bits.
    pub fn check_shape(&self) -> (r: Result<(), GeometryError>)
        ensures
            match r {
                Ok(()) => self.shape_error().is_none(),
                Err(e) => self.shape_error() == Some(e),
            },
    {
        let n: usize = self.positions.len() / 3;
        if self.texcoords.len() / 2 < n || self.normals.len() / 3 < n {
            return Err(GeometryError::MissingAttributes);
        }
        let count: usize = self.indices.len();
        if count % 3 != 0 {
            return Err(GeometryError::IndexCount);
        }
        let mut i: usize = 0;
        while i < count
            invariant
                i <= count,
                count == self.indices@.len(),
                count % 3 == 0,
                n == self.vertex_count(),
                self.texcoords@.len() >= 2 * n,
                self.normals@.len() >= 3 * n,
                forall|j: int| 0 <= j < i ==> self.indices@[j] < n,
            decreases count - i,
        {
            if self.indices[i] as usize >= n {
                assert(0 <= i < self.indices@.len() && self.indices@[i as int] >= self.vertex_count());
                return Err(GeometryError::IndexOutOfRange);
            }
            i += 1;
        }
        if count > 0xffff_ffff {
            return Err(GeometryError::TooManyIndices);
        }
        Ok(())
    }

    /// The corners of triangle `t`, if the mesh has such a triangle.
    pub fn triangle(&self, t: usize) -> (corners: Option<[u32; 3]>)
        ensures
            match corners {
                Some(c) => t < self.triangle_count() && c == [
                    self.indices@[3 * t],
                    self.indices@[3 * t + 1],
                    self.indices@[3 * t + 2],
                ],
                None => t >= self.triangle_count(),
            },
    {
        if t < self.indices.len() / 3 {
            Some([self.indices[3 * t], self.indices[3 * t + 1], self.indices[3 * t + 2]])
        } else {
            None
        }
    }

    /// Assembles the vertices of the mesh.
    ///
    /// Each vertex takes its position, texture coordinates and normal from
    /// the mesh. Tangent and bitangent are written triangle by triangle to
    /// the three corners, so a vertex that several triangles share ends up
    /// with those of the last one; a vertex of no triangle keeps zeros.
    pub fn assemble(&self) -> (r: Result<Vec<ModelVertex>, GeometryError>)
        ensures
            match r {
                Ok(vertices) => self.geometry_error().is_none() && vertices@ == self.vertices(),
                Err(e) => self.geometry_error() == Some(e),
            },
    {
        match self.check_shape() {
            Ok(()) => {},
            Err(e) => {
                return Err(e);
            },
        }
        let n: usize = self.positions.len() / 3;
        let triangles: usize = self.indices.len() / 3;
        if self.tangents.len() != triangles || self.bitangents.len() != triangles {
            return Err(GeometryError::TangentCount);
        }
        let mut vertices: Vec<ModelVertex> = Vec::new();
        let mut v: usize = 0;
        while v < n
            invariant
                v <= n,
                n == self.vertex_count(),
                3 * n <= self.positions@.len() <= usize::MAX,
                self.texcoords@.len() >= 2 * n,
                self.normals@.len() >= 3 * n,
                vertices@.len() == v,
                forall|k: int|
                    0 <= k < v ==> (#[trigger] vertices@[k]) == (ModelVertex {
                        tangent: [0u32, 0u32, 0u32],
                        bitangent: [0u32, 0u32, 0u32],
                        ..self.vertex(k)
                    }),
            decreases n - v,
        {
            vertices.push(
                ModelVertex {
                    position: [
                        self.positions[3 * v],
                        self.positions[3 * v + 1],
                        self.positions[3 * v + 2],
                    ],
                    tex_coords: [self.texcoords[2 * v], self.texcoords[2 * v + 1]],
                    normal: [self.normals[3 * v], self.normals[3 * v + 1], self.normals[3 * v + 2]],
                    tangent: [0, 0, 0],
                    bitangent: [0, 0, 0],
                },
            );
            v += 1;
        }
        let mut t: usize = 0;
        while t < triangles
            invariant
                t <= triangles,
                triangles == self.triangle_count(),
                self.indices@.len() == 3 * triangles <= usize::MAX,
                self.tangents@.len() == triangles,
                self.bitangents@.len() == triangles,
                n == self.vertex_count(),
                vertices@.len() == n,
                forall|i: int| 0 <= i < self.indices@.len() ==> self.indices@[i] < n,
                forall|k: int|
                    0 <= k < n ==> (#[trigger] vertices@[k]) == (ModelVertex {
                        tangent: scattered(self.tangents@, self.indices@, k, t as int),
                        bitangent: scattered(self.bitangents@, self.indices@, k, t as int),
                        ..self.vertex(k)
                    }),
            decreases triangles - t,
        {
            let tangent = self.tangents[t];
            let bitangent = self.bitangents[t];
            let a: usize = self.indices[3 * t] as usize;
            let b: usize = self.indices[3 * t + 1] as usize;
            let c: usize = self.indices[3 * t + 2] as usize;
            let mut corner = vertices[a];
            corner.tangent = tangent;
            corner.bitangent = bitangent;
            vertices.set(a, corner);
            let mut corner = vertices[b];
            corner.tangent = tangent;
            corner.bitangent = bitangent;
            vertices.set(b, corner);
            let mut corner = vertices[c];
            corner.tangent = tangent;
            corner.bitangent = bitangent;
            vertices.set(c, corner);
            t += 1;
        }
        assert(vertices@ =~= self.vertices());
        Ok(vertices)
    }
}

/// A shared vertex ends up with what the last triangle at it brings.
///
/// If triangle `t` has vertex `v` as a corner and no later triangle has, the
/// vertex carries the vector of `t`. If no triangle has it, it carries zeros.
pub proof fn lemma_last_triangle_wins(per_triangle: Seq<[u32; 3]>, indices: Seq<u32>, v: int, upto: int)
    requires
        0 <= upto,
    ensures
        match last_triangle(indices, v, upto) {
            Some(t) => 0 <= t < upto && touches(indices, t, v) && (forall|later: int|
                t < later < upto ==> !touches(indices, later, v)) && scattered(
                per_triangle,
                indices,
                v,
                upto,
            ) == per_triangle[t],
            None => (forall|t: int| 0 <= t < upto ==> !touches(indices, t, v)) && scattered(
                per_triangle,
                indices,
                v,
                upto,
            ) == [0u32, 0u32, 0u32],
        },
    decreases upto,
{
    if upto > 0 && !touches(indices, upto - 1, v) {
        lemma_last_triangle_wins(per_triangle, indices, v, upto - 1);
    }
}

} // verus!
