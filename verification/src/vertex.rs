//! The vertex format of the mesh pipeline, and the mesh it draws.
//!
//! Single-precision numbers are kept as their IEEE 754 bit patterns: the
//! library hands them to the device and never computes with them.
use crate::pod::{le_bytes_u32, lemma_u32_round_trip, push_u32, Pod};
use vstd::prelude::*;

verus! {

/// How the components of one vertex attribute are stored.
#[derive(Clone, Copy, Debug, PartialEq, Eq, Structural)]
pub enum VertexFormat {
    /// One single-precision number.
    Float32,
    /// Two single-precision numbers.
    Float32x2,
    /// Three single-precision numbers.
    Float32x3,
    /// Four single-precision numbers.
    Float32x4,
}

impl VertexFormat {
    /// The number of bytes an attribute of this format occupies.
    pub open spec fn spec_size(self) -> nat {
        match self {
            VertexFormat::Float32 => 4,
            VertexFormat::Float32x2 => 8,
            VertexFormat::Float32x3 => 12,
            VertexFormat::Float32x4 => 16,
        }
    }

    /// The number of bytes an attribute of this format occupies.
    pub fn size(self) -> (size: u64)
        ensures
            size == self.spec_size(),
    {
        match self {
            VertexFormat::Float32 => 4,
            VertexFormat::Float32x2 => 8,
            VertexFormat::Float32x3 => 12,
            VertexFormat::Float32x4 => 16,
        }
    }
}

/// Whether a vertex buffer advances once per vertex or once per instance.
#[derive(Clone, Copy, Debug, PartialEq, Eq, Structural)]
pub enum VertexStepMode {
    Vertex,
    Instance,
}

/// One input of the vertex stage: where it lies inside a vertex and which
/// shader location reads it.
#[derive(Clone, Copy, Debug, PartialEq, Eq, Structural)]
pub struct VertexAttribute {
    pub format: VertexFormat,
    pub offset: u64,
    pub shader_location: u32,
}

/// How the vertex stage reads one vertex buffer.
#[derive(Debug)]
pub struct VertexBufferLayout {
    /// The number of bytes from one vertex to the next.
    pub array_stride: u64,
    pub step_mode: VertexStepMode,
    pub attributes: Vec<VertexAttribute>,
}

/// A vertex of the mesh: a position and a colour, three single-precision
/// numbers each, held as bit patterns.
#[derive(Clone, Copy, Debug, PartialEq, Eq)]
pub struct Vertex {
    pub position: [u32; 3],
    pub color: [u32; 3],
}

/// The bytes of three 32-bit words, one word after another.
pub open spec fn le_bytes_x3(words: [u32; 3]) -> Seq<u8> {
    le_bytes_u32(words[0]) + le_bytes_u32(words[1]) + le_bytes_u32(words[2])
}

/// The attributes of a [`Vertex`]: the position at shader location 0, then
/// the colour at shader location 1, each right behind the one before.
pub open spec fn vertex_attributes() -> Seq<VertexAttribute> {
    seq![
        VertexAttribute { format: VertexFormat::Float32x3, offset: 0, shader_location: 0 },
        VertexAttribute { format: VertexFormat::Float32x3, offset: 12, shader_location: 1 },
    ]
}

impl Pod for Vertex {
    open spec fn spec_size() -> nat {
        24
    }

    /// The position, then the colour, with nothing in between.
    open spec fn bytes(&self) -> Seq<u8> {
        le_bytes_x3(self.position) + le_bytes_x3(self.color)
    }

    proof fn lemma_bytes_len(&self) {
    }

    proof fn lemma_bytes_injective(&self, other: &Self) {
        let a = self.bytes();
        let b = other.bytes();
        assert forall|k: int| 0 <= k < 3 implies self.position[k] == other.position[k] by {
            lemma_u32_round_trip(self.position[k]);
            lemma_u32_round_trip(other.position[k]);
            assert(a.subrange(4 * k, 4 * k + 4) =~= le_bytes_u32(self.position[k]));
            assert(b.subrange(4 * k, 4 * k + 4) =~= le_bytes_u32(other.position[k]));
        }
        assert forall|k: int| 0 <= k < 3 implies self.color[k] == other.color[k] by {
            lemma_u32_round_trip(self.color[k]);
            lemma_u32_round_trip(other.color[k]);
            assert(a.subrange(12 + 4 * k, 16 + 4 * k) =~= le_bytes_u32(self.color[k]));
            assert(b.subrange(12 + 4 * k, 16 + 4 * k) =~= le_bytes_u32(other.color[k]));
        }
        assert(self.position =~= other.position);
        assert(self.color =~= other.color);
    }

    fn size() -> (n: usize) {
        24
    }

    fn write_bytes(&self, out: &mut Vec<u8>) {
        push_u32(out, self.position[0]);
        push_u32(out, self.position[1]);
        push_u32(out, self.position[2]);
        push_u32(out, self.color[0]);
        push_u32(out, self.color[1]);
        push_u32(out, self.color[2]);
        assert(out@ =~= old(out)@ + self.bytes());
    }
}

impl Vertex {
    /// A vertex at `position` with colour `color`, both as bit patterns.
    pub fn new(position: [u32; 3], color: [u32; 3]) -> (vertex: Self)
        ensures
            vertex.position == position,
            vertex.color == color,
    {
        Vertex { position, color }
    }

    /// The vertex that six words spell: position first, colour second.
    pub fn from_words(words: [u32; 6]) -> (vertex: Self)
        ensures
            vertex == vertex_of(words),
    {
        Vertex {
            position: [words[0], words[1], words[2]],
            color: [words[3], words[4], words[5]],
        }
    }

    /// How the vertex stage reads a buffer of vertices: one vertex every
    /// `Vertex::spec_size()` bytes, advancing per vertex, with the attributes
    /// of `vertex_attributes()`.
    pub fn layout() -> (layout: VertexBufferLayout)
        ensures
            layout.array_stride == Vertex::spec_size(),
            layout.step_mode == VertexStepMode::Vertex,
            layout.attributes@ == vertex_attributes(),
    {
        let position = VertexAttribute {
            format: VertexFormat::Float32x3,
            offset: 0,
            shader_location: 0,
        };
        let color = VertexAttribute {
            format: VertexFormat::Float32x3,
            offset: position.offset + position.format.size(),
            shader_location: 1,
        };
        let mut attributes: Vec<VertexAttribute> = Vec::new();
        attributes.push(position);
        attributes.push(color);
        assert(attributes@ =~= vertex_attributes());
        VertexBufferLayout {
            array_stride: Vertex::size() as u64,
            step_mode: VertexStepMode::Vertex,
            attributes,
        }
    }
}

/// The attributes of a vertex tile its bytes: each starts where the one
/// before ends, the last ends at the stride, and the bytes an attribute
/// addresses are those of the field it stands for.
pub proof fn lemma_layout_matches_bytes(vertex: Vertex)
    ensures
        vertex_attributes()[0].offset == 0,
        vertex_attributes()[1].offset == vertex_attributes()[0].offset
            + vertex_attributes()[0].format.spec_size(),
        vertex_attributes()[1].offset + vertex_attributes()[1].format.spec_size()
            == Vertex::spec_size(),
        vertex.bytes().subrange(0, 12) == le_bytes_x3(vertex.position),
        vertex.bytes().subrange(12, 24) == le_bytes_x3(vertex.color),
{
    assert(vertex.bytes().subrange(0, 12) =~= le_bytes_x3(vertex.position));
    assert(vertex.bytes().subrange(12, 24) =~= le_bytes_x3(vertex.color));
}

/// A mesh: vertices, and the indices that pick three of them for each
/// triangle. It is made once and never changed.
#[derive(Debug)]
pub struct Mesh {
    pub vertices: Vec<Vertex>,
    pub indices: Vec<u16>,
}

impl Mesh {
    /// The mesh with the given vertices and indices.
    pub fn new(vertices: Vec<Vertex>, indices: Vec<u16>) -> (mesh: Self)
        ensures
            mesh.vertices == vertices,
            mesh.indices == indices,
    {
        Mesh { vertices, indices }
    }

    /// The mesh the sandbox draws: the pentagon of `VERTICES`, cut into the
    /// triangles of `INDICES`.
    pub fn pentagon() -> (mesh: Self)
        ensures
            mesh.vertices@ == pentagon_vertices(),
            mesh.indices@ == INDICES@,
    {
        Mesh { vertices: vertices(), indices: indices() }
    }
}

/// The indices of the pentagon: three triangles that share vertex 4.
pub const INDICES: [u16; 9] = [0, 1, 4, 1, 2, 4, 2, 3, 4];

/// The vertices of the pentagon, which lies in the plane `z = 0`: for each
/// vertex the three words of its position, then the three of its colour.
pub const VERTICES: [[u32; 6]; 5] = [
    [0xBDB1_D0D5, 0x3EFC_1C5C, 0x0000_0000, 0x3F80_0000, 0x3ECC_CCCD, 0x3F80_0000],
    [0xBEFD_8236, 0x3D8E_835A, 0x0000_0000, 0x3F80_0000, 0x3E99_999A, 0x3ECC_CCCD],
    [0xBE60_7229, 0xBEE6_175F, 0x0000_0000, 0x3F80_0000, 0x3F80_0000, 0x3F80_0000],
    [0x3EB8_26AA, 0xBEB1_D51F, 0x0000_0000, 0x3ECC_CCCD, 0x0000_0000, 0x3F80_0000],
    [0x3EE2_08D8, 0x3E70_5E9C, 0x0000_0000, 0x3F00_0000, 0x3F00_0000, 0x3F00_0000],
];

/// The vertex that six words spell: position first, colour second.
pub open spec fn vertex_of(words: [u32; 6]) -> Vertex {
    Vertex {
        position: [words[0], words[1], words[2]],
        color: [words[3], words[4], words[5]],
    }
}

/// The vertices of the pentagon, in the order the indices refer to them.
pub open spec fn pentagon_vertices() -> Seq<Vertex> {
    Seq::new(5, |i: int| vertex_of(VERTICES[i]))
}

/// The vertices of the pentagon.
fn vertices() -> (mesh: Vec<Vertex>)
    ensures
        mesh@ == pentagon_vertices(),
{
    let mut mesh: Vec<Vertex> = Vec::new();
    let mut i: usize = 0;
    while i < 5
        invariant
            0 <= i <= 5,
            mesh@.len() == i,
            forall|k: int| 0 <= k < i ==> mesh@[k] == vertex_of(VERTICES[k]),
        decreases 5 - i,
    {
        let words = VERTICES[i];
        mesh.push(Vertex::from_words(words));
        i += 1;
    }
    assert(mesh@ =~= pentagon_vertices());
    mesh
}

/// The indices of the pentagon.
fn indices() -> (mesh: Vec<u16>)
    ensures
        mesh@ == INDICES@,
{
    let mut mesh: Vec<u16> = Vec::new();
    let mut i: usize = 0;
    while i < 9
        invariant
            0 <= i <= 9,
            mesh@.len() == i,
            forall|k: int| 0 <= k < i ==> mesh@[k] == INDICES[k],
        decreases 9 - i,
    {
        mesh.push(INDICES[i]);
        i += 1;
    }
    assert(mesh@ =~= INDICES@);
    mesh
}

/// Every index of the pentagon names one of its vertices, and the indices
/// come in whole triangles.
pub proof fn lemma_pentagon_is_closed()
    ensures
        INDICES@.len() % 3 == 0,
        forall|k: int| 0 <= k < INDICES@.len() ==> (#[trigger] INDICES[k]) < pentagon_vertices().len(),
{
}

} // verus!
