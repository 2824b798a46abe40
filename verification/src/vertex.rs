//! The vertices of a mesh: their fields, how they lie in a vertex buffer,
//! and the words that a buffer of them holds.
//!
//! Coordinates pass through here as the 32-bit words that the GPU reads;
//! nothing in this module computes with them.

use vstd::prelude::*;

verus! {

/// One vertex of a mesh, as it lies in a vertex buffer.
#[derive(Clone, Copy, Debug, PartialEq, Eq)]
pub struct ModelVertex {
    pub position: [u32; 3],
    pub tex_coords: [u32; 2],
    pub normal: [u32; 3],
    pub tangent: [u32; 3],
    pub bitangent: [u32; 3],
}

/// Number of 32-bit words in a [`ModelVertex`].
pub const VERTEX_WORDS: usize = 14;

/// Type of a vertex attribute.
#[derive(Clone, Copy, Debug, PartialEq, Eq)]
pub enum VertexFormat {
    /// Two 32-bit components.
    Float32x2,
    /// Three 32-bit components.
    Float32x3,
}

impl VertexFormat {
    /// Number of 32-bit components.
    pub open spec fn components(self) -> int {
        match self {
            VertexFormat::Float32x2 => 2,
            VertexFormat::Float32x3 => 3,
        }
    }

    /// Size in bytes.
    pub open spec fn size(self) -> int {
        4 * self.components()
    }
}

/// One attribute of a vertex: where it lies in the vertex and which shader
/// input it feeds.
#[derive(Clone, Copy, Debug, PartialEq, Eq)]
pub struct VertexAttribute {
    pub format: VertexFormat,
    /// Offset in bytes from the start of the vertex.
    pub offset: u64,
    pub shader_location: u32,
}

/// How the vertices of a buffer are laid out, one vertex after the other.
#[derive(Debug)]
pub struct VertexBufferLayout {
    /// Bytes from one vertex to the next.
    pub array_stride: u64,
    pub attributes: Vec<VertexAttribute>,
}

/// The attributes lie back to back from offset 0, feed the shader inputs
/// 0, 1, 2, ... in this order, and `stride` is the size of them all.
pub open spec fn packed(attributes: Seq<VertexAttribute>, stride: int) -> bool {
    &&& forall|i: int|
        0 <= i < attributes.len() ==> (#[trigger] attributes[i]).shader_location == i
    &&& forall|i: int|
        0 <= i < attributes.len() ==> (#[trigger] attributes[i]).offset == end_of(attributes, i)
    &&& stride == end_of(attributes, attributes.len() as int)
}

/// Total size of the first `n` attributes.
pub open spec fn end_of(attributes: Seq<VertexAttribute>, n: int) -> int
    decreases n,
{
    if n <= 0 {
        0
    } else {
        end_of(attributes, n - 1) + attributes[n - 1].format.size()
    }
}

/// A vertex type that can say how it lies in a buffer.
pub trait Vertex {
    /// The layout of a buffer of such vertices.
    fn desc() -> (layout: VertexBufferLayout)
        ensures
            packed(layout.attributes@, layout.array_stride as int),
    ;
}

/// The attributes of a [`ModelVertex`]: position, texture coordinates,
/// normal, tangent, bitangent.
pub open spec fn model_vertex_attributes() -> Seq<VertexAttribute> {
    seq![
        VertexAttribute { format: VertexFormat::Float32x3, offset: 0, shader_location: 0 },
        VertexAttribute { format: VertexFormat::Float32x2, offset: 12, shader_location: 1 },
        VertexAttribute { format: VertexFormat::Float32x3, offset: 20, shader_location: 2 },
        VertexAttribute { format: VertexFormat::Float32x3, offset: 32, shader_location: 3 },
        VertexAttribute { format: VertexFormat::Float32x3, offset: 44, shader_location: 4 },
    ]
}

impl Vertex for ModelVertex {
    fn desc() -> (layout: VertexBufferLayout)
        ensures
            layout.attributes@ == model_vertex_attributes(),
            layout.array_stride == 4 * VERTEX_WORDS,
    {
        let mut attributes: Vec<VertexAttribute> = Vec::new();
        attributes.push(
            VertexAttribute { format: VertexFormat::Float32x3, offset: 0, shader_location: 0 },
        );
        attributes.push(
            VertexAttribute { format: VertexFormat::Float32x2, offset: 12, shader_location: 1 },
        );
        attributes.push(
            VertexAttribute { format: VertexFormat::Float32x3, offset: 20, shader_location: 2 },
        );
        attributes.push(
            VertexAttribute { format: VertexFormat::Float32x3, offset: 32, shader_location: 3 },
        );
        attributes.push(
            VertexAttribute { format: VertexFormat::Float32x3, offset: 44, shader_location: 4 },
        );
        proof {
            let a = attributes@;
            assert(a =~= model_vertex_attributes());
            reveal_with_fuel(end_of, 6);
            assert(end_of(a, 0) == 0);
            assert(end_of(a, 1) == 12);
            assert(end_of(a, 2) == 20);
            assert(end_of(a, 3) == 32);
            assert(end_of(a, 4) == 44);
            assert(end_of(a, 5) == 56);
        }
        VertexBufferLayout { array_stride: 56, attributes }
    }
}

impl ModelVertex {
    /// The words of the vertex in buffer order.
    pub open spec fn spec_words(self) -> Seq<u32> {
        self.position@ + self.tex_coords@ + self.normal@ + self.tangent@ + self.bitangent@
    }

    /// The words of the vertex in buffer order.
    pub fn words(&self) -> (w: [u32; 14])
        ensures
            w@ == self.spec_words(),
    {
        let w = [
            self.position[0],
            self.position[1],
            self.position[2],
            self.tex_coords[0],
            self.tex_coords[1],
            self.normal[0],
            self.normal[1],
            self.normal[2],
            self.tangent[0],
            self.tangent[1],
            self.tangent[2],
            self.bitangent[0],
            self.bitangent[1],
            self.bitangent[2],
        ];
        assert(w@ =~= self.spec_words());
        w
    }
}

/// The field of a vertex that attribute `i` of its layout describes.
pub open spec fn attribute_field(vertex: ModelVertex, i: int) -> Seq<u32> {
    if i == 0 {
        vertex.position@
    } else if i == 1 {
        vertex.tex_coords@
    } else if i == 2 {
        vertex.normal@
    } else if i == 3 {
        vertex.tangent@
    } else {
        vertex.bitangent@
    }
}

/// The layout of a vertex tells where its fields lie: attribute `i` has as
/// many components as its field has words, and the words of the field are
/// the words of the vertex from the attribute's offset on.
pub proof fn lemma_layout_matches_words(vertex: ModelVertex, i: int)
    requires
        0 <= i < 5,
    ensures
        ({
            let attribute = model_vertex_attributes()[i];
            let first = attribute.offset as int / 4;
            &&& attribute.offset % 4 == 0
            &&& attribute_field(vertex, i).len() == attribute.format.components()
            &&& first + attribute.format.components() <= vertex.spec_words().len()
            &&& vertex.spec_words().subrange(first, first + attribute.format.components())
                == attribute_field(vertex, i)
        }),
{
    let attribute = model_vertex_attributes()[i];
    let first = attribute.offset as int / 4;
    assert(vertex.spec_words().subrange(first, first + attribute.format.components())
        =~= attribute_field(vertex, i));
}

/// The words of the first `n` of `vertices`, vertex after vertex.
pub open spec fn vertex_words(vertices: Seq<ModelVertex>, n: int) -> Seq<u32>
    decreases n,
{
    if n <= 0 {
        Seq::empty()
    } else {
        vertex_words(vertices, n - 1) + vertices[n - 1].spec_words()
    }
}

/// The words of vertices lie one vertex after the other, 14 words each:
/// word `k` of vertex `i` is word `14 * i + k` of them all.
pub proof fn lemma_vertex_words_layout(vertices: Seq<ModelVertex>, n: int, i: int, k: int)
    requires
        0 <= i < n <= vertices.len(),
        0 <= k < 14,
    ensures
        vertex_words(vertices, n).len() == 14 * n,
        vertex_words(vertices, n)[14 * i + k] == vertices[i].spec_words()[k],
    decreases n,
{
    lemma_vertex_words_len(vertices, n - 1);
    if i < n - 1 {
        lemma_vertex_words_layout(vertices, n - 1, i, k);
    }
}

/// The words of `n` vertices are `14 * n`.
pub proof fn lemma_vertex_words_len(vertices: Seq<ModelVertex>, n: int)
    requires
        0 <= n <= vertices.len(),
    ensures
        vertex_words(vertices, n).len() == 14 * n,
    decreases n,
{
    if n > 0 {
        lemma_vertex_words_len(vertices, n - 1);
    }
}

/// The words of `vertices`, vertex after vertex.
pub fn words_of(vertices: &Vec<ModelVertex>) -> (words: Vec<u32>)
    ensures
        words@ == vertex_words(vertices@, vertices@.len() as int),
        words@.len() == 14 * vertices@.len(),
{
    let count: usize = vertices.len();
    let mut words: Vec<u32> = Vec::new();
    let mut i: usize = 0;
    while i < count
        invariant
            i <= count,
            count == vertices@.len(),
            words@ == vertex_words(vertices@, i as int),
        decreases count - i,
    {
        let vertex = vertices[i].words();
        let mut k: usize = 0;
        while k < 14
            invariant
                k <= 14,
                i < count,
                count == vertices@.len(),
                vertex@ == vertices@[i as int].spec_words(),
                vertex@.len() == 14,
                words@ == vertex_words(vertices@, i as int) + vertex@.subrange(0, k as int),
            decreases 14 - k,
        {
            words.push(vertex[k]);
            k += 1;
            assert(words@ =~= vertex_words(vertices@, i as int) + vertex@.subrange(0, k as int));
        }
        assert(vertex@.subrange(0, 14) =~= vertex@);
        i += 1;
    }
    proof {
        lemma_vertex_words_len(vertices@, count as int);
    }
    words
}

} // verus!
