//! The vertex format of the rectangle shader.
//!
//! A vertex is five 32-bit words: three for its position and two for its
//! texture coordinate. The words are the bit patterns of single-precision
//! numbers. This crate stores and moves them and never computes with them.

use vstd::prelude::*;

verus! {

/// Number of 32-bit words in one vertex.
pub const VERTEX_WORDS: usize = 5;

/// Size in bytes of one vertex.
pub const VERTEX_BYTES: u64 = 20;

/// Size in bytes of one index.
pub const INDEX_BYTES: u64 = 4;

/// One corner of a triangle, as it is laid out in the vertex buffer.
#[derive(Clone, Copy, Debug)]
pub struct Vertex {
    /// Bit patterns of the position's three coordinates.
    pub xyz: [u32; 3],
    /// Bit patterns of the texture coordinate.
    pub uv: [u32; 2],
}

/// Where the attributes of a vertex lie within its bytes.
#[derive(Clone, Copy, Debug)]
pub struct VertexLayout {
    /// Distance in bytes from one vertex to the next.
    pub array_stride: u64,
    /// Offset in bytes of the position, three words long.
    pub xyz_offset: u64,
    /// Offset in bytes of the texture coordinate, two words long.
    pub uv_offset: u64,
}

impl Vertex {
    /// The five words of the vertex in buffer order: the position first,
    /// then the texture coordinate.
    pub open spec fn words(self) -> Seq<u32> {
        seq![self.xyz[0], self.xyz[1], self.xyz[2], self.uv[0], self.uv[1]]
    }

    /// The layout that `words` follows: the position at the front, the
    /// texture coordinate right behind it, and nothing after that.
    pub fn layout() -> (layout: VertexLayout)
        ensures
            layout.array_stride == VERTEX_BYTES,
            layout.xyz_offset == 0,
            layout.uv_offset == 12,
            layout.xyz_offset + 4 * 3 == layout.uv_offset,
            layout.uv_offset + 4 * 2 == layout.array_stride,
    {
        VertexLayout { array_stride: VERTEX_BYTES, xyz_offset: 0, uv_offset: 12 }
    }
}

/// The words of a vertex sequence: five per vertex, in the order of the
/// vertices.
pub open spec fn vertex_words(vertices: Seq<Vertex>) -> Seq<u32> {
    Seq::new(
        (VERTEX_WORDS as nat) * vertices.len(),
        |i: int| vertices[i / (VERTEX_WORDS as int)].words()[i % (VERTEX_WORDS as int)],
    )
}

} // verus!
