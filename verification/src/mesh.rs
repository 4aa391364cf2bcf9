//! Meshes: immutable vertex/index buffer pairs and the canonical quad
//! factory.
//!
//! A mesh owns the exact byte images that are uploaded to the GPU vertex and
//! index buffers. The vertex record layout is fixed: position at offset 0,
//! normal at 12, texture coordinates at 24, colour at 32, with a stride of
//! 48 bytes; the contracts pin every byte.

use vstd::prelude::*;
use crate::fbits::{spec_f32_neg, F32_ONE, F32_TWO, F32_ZERO};
use crate::glam_ops::{f32_div, glam_f32_div};
use crate::gpu_bytes::{push_words_le, spec_words_le_bytes};
use crate::math::{Vec2Bits, Vec3Bits};

verus! {

/// A vertex with position, normal, texture coordinates, and color, each
/// component an `f32` bit pattern.
#[derive(Clone, Copy, Debug)]
pub struct Vertex {
    pub position: [u32; 3],
    pub normal: [u32; 3],
    pub tex_coords: [u32; 2],
    pub color: [u32; 4],
}

/// The twelve 32-bit words of one vertex record, in buffer order.
pub open spec fn spec_vertex_words(v: Vertex) -> Seq<u32> {
    seq![
        v.position@[0],
        v.position@[1],
        v.position@[2],
        v.normal@[0],
        v.normal@[1],
        v.normal@[2],
        v.tex_coords@[0],
        v.tex_coords@[1],
        v.color@[0],
        v.color@[1],
        v.color@[2],
        v.color@[3],
    ]
}

/// The words of a whole vertex list, record after record.
pub open spec fn spec_vertices_words(vs: Seq<Vertex>) -> Seq<u32>
    decreases vs.len(),
{
    if vs.len() == 0 {
        Seq::empty()
    } else {
        spec_vertex_words(vs[0]) + spec_vertices_words(vs.drop_first())
    }
}

/// Appending a vertex appends its twelve words.
pub proof fn lemma_vertices_words_push(vs: Seq<Vertex>, v: Vertex)
    ensures
        spec_vertices_words(vs.push(v)) == spec_vertices_words(vs) + spec_vertex_words(v),
    decreases vs.len(),
{
    let p = vs.push(v);
    if vs.len() == 0 {
        assert(p[0] == v);
        assert(p.drop_first() =~= Seq::<Vertex>::empty());
        assert(spec_vertices_words(Seq::<Vertex>::empty()) == Seq::<u32>::empty());
        assert(spec_vertices_words(p) == spec_vertex_words(p[0]) + spec_vertices_words(
            p.drop_first(),
        ));
        assert(spec_vertices_words(p) =~= spec_vertices_words(vs) + spec_vertex_words(v));
    } else {
        lemma_vertices_words_push(vs.drop_first(), v);
        assert(p.drop_first() =~= vs.drop_first().push(v));
        assert(p[0] == vs[0]);
        assert(spec_vertices_words(p) == spec_vertex_words(p[0]) + spec_vertices_words(
            p.drop_first(),
        ));
        assert(spec_vertices_words(p) =~= spec_vertices_words(vs) + spec_vertex_words(v));
    }
}

impl Vertex {
    /// Create a new vertex.
    pub fn new(position: Vec3Bits, normal: Vec3Bits, tex_coords: Vec2Bits, color: [u32; 4]) -> (r:
        Vertex)
        ensures
            r == (Vertex {
                position: [position.x, position.y, position.z],
                normal: [normal.x, normal.y, normal.z],
                tex_coords: [tex_coords.x, tex_coords.y],
                color,
            }),
            r.position@ == seq![position.x, position.y, position.z],
            r.normal@ == seq![normal.x, normal.y, normal.z],
            r.tex_coords@ == seq![tex_coords.x, tex_coords.y],
            r.color@ == color@,
    {
        let r = Vertex {
            position: [position.x, position.y, position.z],
            normal: [normal.x, normal.y, normal.z],
            tex_coords: [tex_coords.x, tex_coords.y],
            color,
        };
        proof {
            assert(r.position@ =~= seq![position.x, position.y, position.z]);
            assert(r.normal@ =~= seq![normal.x, normal.y, normal.z]);
            assert(r.tex_coords@ =~= seq![tex_coords.x, tex_coords.y]);
        }
        r
    }

    /// The vertex buffer layout for this vertex type: four attributes at
    /// offsets 0, 12, 24 and 32, with a 48-byte stride.
    pub fn desc() -> (r: VertexBufferLayoutDesc)
        ensures
            r.array_stride == 48,
            r.attributes@.len() == 4,
            r.attributes@[0] == (VertexAttributeDesc {
                offset: 0u64,
                shader_location: 0u32,
                format: VertexFormatDesc::Float32x3,
            }),
            r.attributes@[1] == (VertexAttributeDesc {
                offset: 12u64,
                shader_location: 1u32,
                format: VertexFormatDesc::Float32x3,
            }),
            r.attributes@[2] == (VertexAttributeDesc {
                offset: 24u64,
                shader_location: 2u32,
                format: VertexFormatDesc::Float32x2,
            }),
            r.attributes@[3] == (VertexAttributeDesc {
                offset: 32u64,
                shader_location: 3u32,
                format: VertexFormatDesc::Float32x4,
            }),
    {
        let mut attributes: Vec<VertexAttributeDesc> = Vec::new();
        attributes.push(
            VertexAttributeDesc {
                offset: 0,
                shader_location: 0,
                format: VertexFormatDesc::Float32x3,
            },
        );
        attributes.push(
            VertexAttributeDesc {
                offset: 12,
                shader_location: 1,
                format: VertexFormatDesc::Float32x3,
            },
        );
        attributes.push(
            VertexAttributeDesc {
                offset: 24,
                shader_location: 2,
                format: VertexFormatDesc::Float32x2,
            },
        );
        attributes.push(
            VertexAttributeDesc {
                offset: 32,
                shader_location: 3,
                format: VertexFormatDesc::Float32x4,
            },
        );
        VertexBufferLayoutDesc { array_stride: 48, attributes }
    }
}

/// The shape of one vertex attribute, mirroring what the GPU pipeline is
/// told about the vertex stream.
#[derive(Clone, Copy, PartialEq, Eq, Structural, Debug)]
pub struct VertexAttributeDesc {
    pub offset: u64,
    pub shader_location: u32,
    pub format: VertexFormatDesc,
}

/// Vertex attribute component formats used by this engine.
#[derive(Clone, Copy, PartialEq, Eq, Structural, Debug)]
pub enum VertexFormatDesc {
    Float32x2,
    Float32x3,
    Float32x4,
}

/// A vertex buffer layout: stride plus attribute list.
#[derive(Clone, Debug)]
pub struct VertexBufferLayoutDesc {
    pub array_stride: u64,
    pub attributes: Vec<VertexAttributeDesc>,
}

/// A mesh: the byte images of an immutable vertex buffer and index buffer,
/// plus the index count.
#[derive(Clone, Debug)]
pub struct Mesh {
    vertex_data: Vec<u8>,
    index_data: Vec<u8>,
    num_indices: u32,
    pub name: String,
}

impl Mesh {
    /// Create a new mesh from vertices and indices. The byte images are the
    /// little-endian serialization of the vertex records and of the indices.
    pub fn new(name: &str, vertices: &Vec<Vertex>, indices: &Vec<u32>) -> (r: Mesh)
        requires
            indices@.len() <= u32::MAX,
        ensures
            r.spec_vertex_data() == spec_words_le_bytes(spec_vertices_words(vertices@)),
            r.spec_index_data() == spec_words_le_bytes(indices@),
            r.spec_num_indices() == indices@.len(),
            r.spec_name() == name@,
    {
        let words = vertices_to_words(vertices);
        let mut vertex_data: Vec<u8> = Vec::new();
        push_words_le(&mut vertex_data, &words);
        let mut index_data: Vec<u8> = Vec::new();
        push_words_le(&mut index_data, indices);
        Mesh {
            vertex_data,
            index_data,
            num_indices: indices.len() as u32,
            name: name.to_owned(),
        }
    }

    /// Get the vertex buffer contents.
    pub fn vertex_buffer(&self) -> (r: &Vec<u8>)
        ensures
            r@ == self.spec_vertex_data(),
    {
        &self.vertex_data
    }

    /// Get the index buffer contents.
    pub fn index_buffer(&self) -> (r: &Vec<u8>)
        ensures
            r@ == self.spec_index_data(),
    {
        &self.index_data
    }

    /// Get the number of indices.
    pub fn num_indices(&self) -> (r: u32)
        ensures
            r == self.spec_num_indices(),
    {
        self.num_indices
    }

    /// The contents of the vertex buffer, for contracts.
    pub closed spec fn spec_vertex_data(&self) -> Seq<u8> {
        self.vertex_data@
    }

    /// The contents of the index buffer, for contracts.
    pub closed spec fn spec_index_data(&self) -> Seq<u8> {
        self.index_data@
    }

    /// The stored index count, for contracts.
    pub closed spec fn spec_num_indices(&self) -> u32 {
        self.num_indices
    }

    /// The mesh name, for contracts.
    pub closed spec fn spec_name(&self) -> Seq<char> {
        self.name@
    }

    /// Create a quad mesh covering `[-w/2, w/2] x [-h/2, h/2]` in the XY
    /// plane, with outward normal `+Z`, UV origin at the bottom left, white
    /// vertex colour, and two counter-clockwise triangles.
    pub fn create_quad(width: u32, height: u32) -> (r: Mesh)
        ensures
            r.spec_vertex_data() == spec_words_le_bytes(
                spec_vertices_words(spec_quad_vertices(width, height)),
            ),
            r.spec_index_data() == spec_words_le_bytes(spec_quad_indices()),
            r.spec_num_indices() == 6,
            r.spec_name() == "Quad"@,
    {
        let half_width = f32_div(width, F32_TWO);
        let half_height = f32_div(height, F32_TWO);
        let neg_half_width = half_width ^ crate::fbits::F32_SIGN_MASK;
        let neg_half_height = half_height ^ crate::fbits::F32_SIGN_MASK;

        let normal = Vec3Bits { x: F32_ZERO, y: F32_ZERO, z: F32_ONE };
        let white: [u32; 4] = [F32_ONE, F32_ONE, F32_ONE, F32_ONE];

        let mut vertices: Vec<Vertex> = Vec::new();
        // Bottom left: the UV origin.
        vertices.push(
            Vertex::new(
                Vec3Bits { x: neg_half_width, y: neg_half_height, z: F32_ZERO },
                normal,
                Vec2Bits { x: F32_ZERO, y: F32_ZERO },
                white,
            ),
        );
        // Bottom right
        vertices.push(
            Vertex::new(
                Vec3Bits { x: half_width, y: neg_half_height, z: F32_ZERO },
                normal,
                Vec2Bits { x: F32_ONE, y: F32_ZERO },
                white,
            ),
        );
        // Top right
        vertices.push(
            Vertex::new(
                Vec3Bits { x: half_width, y: half_height, z: F32_ZERO },
                normal,
                Vec2Bits { x: F32_ONE, y: F32_ONE },
                white,
            ),
        );
        // Top left
        vertices.push(
            Vertex::new(
                Vec3Bits { x: neg_half_width, y: half_height, z: F32_ZERO },
                normal,
                Vec2Bits { x: F32_ZERO, y: F32_ONE },
                white,
            ),
        );

        let mut indices: Vec<u32> = Vec::new();
        indices.push(0);
        indices.push(1);
        indices.push(2);
        indices.push(2);
        indices.push(3);
        indices.push(0);

        proof {
            assert(vertices@ =~= spec_quad_vertices(width, height));
            assert(indices@ =~= spec_quad_indices());
        }
        Mesh::new("Quad", &vertices, &indices)
    }
}

/// The four corner vertices of the quad of a given width and height: the
/// corners sit at `(+-w/2, +-h/2, 0)`, in the order bottom-left,
/// bottom-right, top-right, top-left, with the UV origin at the bottom
/// left.
pub open spec fn spec_quad_vertices(width: u32, height: u32) -> Seq<Vertex> {
    let hw = glam_f32_div(width, F32_TWO);
    let hh = glam_f32_div(height, F32_TWO);
    let nhw = spec_f32_neg(hw);
    let nhh = spec_f32_neg(hh);
    seq![
        spec_quad_vertex(nhw, nhh, F32_ZERO, F32_ZERO),
        spec_quad_vertex(hw, nhh, F32_ONE, F32_ZERO),
        spec_quad_vertex(hw, hh, F32_ONE, F32_ONE),
        spec_quad_vertex(nhw, hh, F32_ZERO, F32_ONE),
    ]
}


/// Law: for every width and height, the quad has exactly four vertices,
/// sitting at the corners `(+-w/2, +-h/2, 0)` with the UV origin at the
/// bottom-left corner, and exactly six indices forming the two
/// counter-clockwise triangles `(0,1,2)` and `(2,3,0)`.
pub proof fn lemma_quad_geometry(width: u32, height: u32)
    ensures
        spec_quad_vertices(width, height).len() == 4,
        spec_quad_indices().len() == 6,
        spec_quad_indices() == seq![0u32, 1u32, 2u32, 2u32, 3u32, 0u32],
        spec_quad_vertices(width, height)[0].tex_coords@ == seq![F32_ZERO, F32_ZERO],
        spec_quad_vertices(width, height)[1].tex_coords@ == seq![F32_ONE, F32_ZERO],
        spec_quad_vertices(width, height)[2].tex_coords@ == seq![F32_ONE, F32_ONE],
        spec_quad_vertices(width, height)[3].tex_coords@ == seq![F32_ZERO, F32_ONE],
        spec_quad_vertices(width, height)[0].position@ == seq![
            spec_f32_neg(glam_f32_div(width, F32_TWO)),
            spec_f32_neg(glam_f32_div(height, F32_TWO)),
            F32_ZERO,
        ],
        spec_quad_vertices(width, height)[1].position@ == seq![
            glam_f32_div(width, F32_TWO),
            spec_f32_neg(glam_f32_div(height, F32_TWO)),
            F32_ZERO,
        ],
        spec_quad_vertices(width, height)[2].position@ == seq![
            glam_f32_div(width, F32_TWO),
            glam_f32_div(height, F32_TWO),
            F32_ZERO,
        ],
        spec_quad_vertices(width, height)[3].position@ == seq![
            spec_f32_neg(glam_f32_div(width, F32_TWO)),
            glam_f32_div(height, F32_TWO),
            F32_ZERO,
        ],
{
    let hw = glam_f32_div(width, F32_TWO);
    let hh = glam_f32_div(height, F32_TWO);
    assert(spec_quad_vertices(width, height)[0].position@ =~= seq![
        spec_f32_neg(hw),
        spec_f32_neg(hh),
        F32_ZERO,
    ]);
    assert(spec_quad_vertices(width, height)[1].position@ =~= seq![hw, spec_f32_neg(hh), F32_ZERO]);
    assert(spec_quad_vertices(width, height)[2].position@ =~= seq![hw, hh, F32_ZERO]);
    assert(spec_quad_vertices(width, height)[3].position@ =~= seq![spec_f32_neg(hw), hh, F32_ZERO]);
    assert(spec_quad_vertices(width, height)[0].tex_coords@ =~= seq![F32_ZERO, F32_ZERO]);
    assert(spec_quad_vertices(width, height)[1].tex_coords@ =~= seq![F32_ONE, F32_ZERO]);
    assert(spec_quad_vertices(width, height)[2].tex_coords@ =~= seq![F32_ONE, F32_ONE]);
    assert(spec_quad_vertices(width, height)[3].tex_coords@ =~= seq![F32_ZERO, F32_ONE]);
}

/// One quad vertex: position `(x, y, 0)`, normal `+Z`, the given UV, white.
pub open spec fn spec_quad_vertex(x: u32, y: u32, u: u32, v: u32) -> Vertex {
    Vertex {
        position: [x, y, F32_ZERO],
        normal: [F32_ZERO, F32_ZERO, F32_ONE],
        tex_coords: [u, v],
        color: [F32_ONE, F32_ONE, F32_ONE, F32_ONE],
    }
}

/// The quad's index list: two counter-clockwise triangles `(0,1,2)` and
/// `(2,3,0)`.
pub open spec fn spec_quad_indices() -> Seq<u32> {
    seq![0u32, 1u32, 2u32, 2u32, 3u32, 0u32]
}

/// Serializes a vertex list into its 32-bit words, record after record.
fn vertices_to_words(vs: &Vec<Vertex>) -> (r: Vec<u32>)
    ensures
        r@ == spec_vertices_words(vs@),
{
    let mut words: Vec<u32> = Vec::new();
    let mut i: usize = 0;
    while i < vs.len()
        invariant
            0 <= i <= vs@.len(),
            words@ == spec_vertices_words(vs@.take(i as int)),
        decreases vs@.len() - i,
    {
        let ghost before = words@;
        let v = vs[i];
        words.push(v.position[0]);
        words.push(v.position[1]);
        words.push(v.position[2]);
        words.push(v.normal[0]);
        words.push(v.normal[1]);
        words.push(v.normal[2]);
        words.push(v.tex_coords[0]);
        words.push(v.tex_coords[1]);
        words.push(v.color[0]);
        words.push(v.color[1]);
        words.push(v.color[2]);
        words.push(v.color[3]);
        proof {
            lemma_vertices_words_push(vs@.take(i as int), vs@[i as int]);
            assert(vs@.take(i as int).push(vs@[i as int]) =~= vs@.take(i + 1));
            assert(words@ =~= before + spec_vertex_words(vs@[i as int]));
        }
        i += 1;
    }
    proof {
        assert(vs@.take(vs@.len() as int) =~= vs@);
    }
    words
}

} // verus!
