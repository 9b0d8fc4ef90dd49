//! Bookkeeping for the two buffers a rectangle painter draws from.
//!
//! The buffers themselves belong to the graphics device and stay with the
//! caller. What is kept here is how large each buffer is and how much of it
//! the current frame's geometry fills, so that every upload fits the buffer
//! it is written to and every draw reads only what was uploaded.

use vstd::prelude::*;
use crate::geometry::MAX_RECTS;
use crate::packing::{le_bytes, pack_vertices, pack_words};
use crate::vertex::{vertex_words, Vertex, INDEX_BYTES, VERTEX_BYTES};

verus! {

/// Size in bytes of the three vertices of one rectangle.
pub const RECT_VERTEX_BYTES: u64 = 60;

/// Size in bytes of the three indices of one rectangle.
pub const RECT_INDEX_BYTES: u64 = 12;

/// Size in bytes that each buffer of a new painter starts with.
pub const SCRATCH_BYTES: u64 = 6000;

/// Capacity a buffer has once `needed` bytes must fit into it: buffers grow
/// to what is needed and never shrink.
pub open spec fn grown(capacity: u64, needed: u64) -> u64 {
    if needed > capacity {
        needed
    } else {
        capacity
    }
}

/// The new size of a buffer that has to be replaced before `needed` bytes
/// are written to it, or `None` if the buffer is large enough as it is.
pub open spec fn regrowth(capacity: u64, needed: u64) -> Option<u64> {
    if needed > capacity {
        Some(needed)
    } else {
        None
    }
}

/// Whether the geometry of a row of `count` rectangles, three vertices and
/// three indices each, fits buffers of the given sizes.
pub open spec fn row_fits(state: PainterState, count: nat) -> bool {
    &&& RECT_VERTEX_BYTES * count <= state.vertex_capacity
    &&& RECT_INDEX_BYTES * count <= state.index_capacity
}

/// The longest row of rectangles that fits buffers of the given sizes: the
/// shorter of what the two buffers hold, capped where 32-bit indices end.
pub open spec fn longest_row(state: PainterState) -> nat {
    let by_vertices = state.vertex_capacity as nat / (RECT_VERTEX_BYTES as nat);
    let by_indices = state.index_capacity as nat / (RECT_INDEX_BYTES as nat);
    let by_buffers = if by_vertices < by_indices {
        by_vertices
    } else {
        by_indices
    };
    if by_buffers < MAX_RECTS {
        by_buffers
    } else {
        MAX_RECTS as nat
    }
}

/// What the caller hands to the device for one frame: for each buffer the
/// size of its replacement, if it has to grow, and the bytes to write at its
/// front.
#[derive(Clone, Debug)]
pub struct Upload {
    /// New size in bytes of the vertex buffer, if it has to grow.
    pub vertex_capacity: Option<u64>,
    /// Byte image of the frame's vertices.
    pub vertex_bytes: Vec<u8>,
    /// New size in bytes of the index buffer, if it has to grow.
    pub index_capacity: Option<u64>,
    /// Byte image of the frame's indices.
    pub index_bytes: Vec<u8>,
}

/// The parts of the two buffers that one draw call reads.
#[derive(Clone, Copy, Debug)]
pub struct DrawSpan {
    /// Length in bytes of the filled front of the vertex buffer.
    pub vertex_bytes: u64,
    /// Length in bytes of the filled front of the index buffer.
    pub index_bytes: u64,
    /// Number of indices to draw, starting at index zero.
    pub index_count: u32,
}

/// Sizes and fill levels of a painter's buffers, as plain numbers.
#[derive(Clone, Copy, Debug)]
pub struct PainterState {
    /// Size in bytes of the vertex buffer.
    pub vertex_capacity: u64,
    /// Number of vertices uploaded for the current frame.
    pub vertex_count: u32,
    /// Size in bytes of the index buffer.
    pub index_capacity: u64,
    /// Number of indices uploaded for the current frame.
    pub index_count: u32,
}

/// The bookkeeping half of a rectangle painter.
///
/// The geometry of the current frame always fits the buffers: the painter
/// asks for a larger buffer before it lets more be written.
#[derive(Clone, Copy, Debug)]
pub struct RectPainter {
    vertex_capacity: u64,
    vertex_count: u32,
    index_capacity: u64,
    index_count: u32,
}

impl View for RectPainter {
    type V = PainterState;

    closed spec fn view(&self) -> PainterState {
        PainterState {
            vertex_capacity: self.vertex_capacity,
            vertex_count: self.vertex_count,
            index_capacity: self.index_capacity,
            index_count: self.index_count,
        }
    }
}

impl RectPainter {
    #[verifier::type_invariant]
    spec fn fits(self) -> bool {
        &&& VERTEX_BYTES * self.vertex_count <= self.vertex_capacity
        &&& INDEX_BYTES * self.index_count <= self.index_capacity
    }

    /// A painter with two empty buffers of `SCRATCH_BYTES` each.
    pub fn new() -> (painter: Self)
        ensures
            painter@ == (PainterState {
                vertex_capacity: SCRATCH_BYTES,
                vertex_count: 0,
                index_capacity: SCRATCH_BYTES,
                index_count: 0,
            }),
    {
        RectPainter {
            vertex_capacity: SCRATCH_BYTES,
            vertex_count: 0,
            index_capacity: SCRATCH_BYTES,
            index_count: 0,
        }
    }

    /// The painter's sizes and fill levels.
    pub fn state(&self) -> (state: PainterState)
        ensures
            state == self@,
            VERTEX_BYTES * state.vertex_count <= state.vertex_capacity,
            INDEX_BYTES * state.index_count <= state.index_capacity,
    {
        proof {
            use_type_invariant(self);
        }
        PainterState {
            vertex_capacity: self.vertex_capacity,
            vertex_count: self.vertex_count,
            index_capacity: self.index_capacity,
            index_count: self.index_count,
        }
    }

    /// Takes the geometry of a new frame: records how many vertices and
    /// indices it has, and returns their byte images together with the sizes
    /// of the buffers that have to be replaced before the images are written.
    ///
    /// A buffer that is too small grows to exactly the size the frame needs;
    /// one that is large enough is kept. Draw calls count in 32 bits, so
    /// neither sequence may be longer than that.
    pub fn set_geometry(&mut self, vertices: &[Vertex], indexes: &[u32]) -> (upload: Upload)
        requires
            vertices@.len() <= u32::MAX,
            indexes@.len() <= u32::MAX,
        ensures
            final(self)@ == (PainterState {
                vertex_capacity: grown(
                    old(self)@.vertex_capacity,
                    (VERTEX_BYTES * vertices@.len()) as u64,
                ),
                vertex_count: vertices@.len() as u32,
                index_capacity: grown(
                    old(self)@.index_capacity,
                    (INDEX_BYTES * indexes@.len()) as u64,
                ),
                index_count: indexes@.len() as u32,
            }),
            upload.vertex_capacity == regrowth(
                old(self)@.vertex_capacity,
                (VERTEX_BYTES * vertices@.len()) as u64,
            ),
            upload.index_capacity == regrowth(
                old(self)@.index_capacity,
                (INDEX_BYTES * indexes@.len()) as u64,
            ),
            upload.vertex_bytes@ == le_bytes(vertex_words(vertices@)),
            upload.index_bytes@ == le_bytes(indexes@),
    {
        let vertex_count: u32 = vertices.len() as u32;
        let index_count: u32 = indexes.len() as u32;
        let vertex_bytes: u64 = VERTEX_BYTES * (vertex_count as u64);
        let index_bytes: u64 = INDEX_BYTES * (index_count as u64);
        let grow_vertices = vertex_bytes > self.vertex_capacity;
        let grow_indices = index_bytes > self.index_capacity;
        let upload = Upload {
            vertex_capacity: if grow_vertices {
                Some(vertex_bytes)
            } else {
                None
            },
            vertex_bytes: pack_vertices(vertices),
            index_capacity: if grow_indices {
                Some(index_bytes)
            } else {
                None
            },
            index_bytes: pack_words(indexes),
        };
        *self = RectPainter {
            vertex_capacity: if grow_vertices {
                vertex_bytes
            } else {
                self.vertex_capacity
            },
            vertex_count,
            index_capacity: if grow_indices {
                index_bytes
            } else {
                self.index_capacity
            },
            index_count,
        };
        upload
    }

    /// The longest row of rectangles that the buffers hold as they are.
    pub fn rects_that_fit(&self) -> (count: u32)
        ensures
            count == longest_row(self@),
    {
        let by_vertices: u64 = self.vertex_capacity / RECT_VERTEX_BYTES;
        let by_indices: u64 = self.index_capacity / RECT_INDEX_BYTES;
        let by_buffers: u64 = if by_vertices < by_indices {
            by_vertices
        } else {
            by_indices
        };
        if by_buffers < MAX_RECTS as u64 {
            by_buffers as u32
        } else {
            MAX_RECTS
        }
    }

    /// The byte ranges and the index range of the draw call for the current
    /// frame. Both byte ranges lie within their buffers.
    pub fn paint(&self) -> (span: DrawSpan)
        ensures
            span.vertex_bytes == VERTEX_BYTES * self@.vertex_count,
            span.index_bytes == INDEX_BYTES * self@.index_count,
            span.index_count == self@.index_count,
            span.vertex_bytes <= self@.vertex_capacity,
            span.index_bytes <= self@.index_capacity,
    {
        proof {
            use_type_invariant(self);
        }
        DrawSpan {
            vertex_bytes: VERTEX_BYTES * (self.vertex_count as u64),
            index_bytes: INDEX_BYTES * (self.index_count as u64),
            index_count: self.index_count,
        }
    }
}

/// Every row up to the longest one fits the buffers, and no longer row
/// does, unless the limit of 32-bit indices is reached first.
pub proof fn lemma_longest_row_is_largest_fit(state: PainterState)
    ensures
        longest_row(state) <= MAX_RECTS,
        forall|n: nat| n <= longest_row(state) ==> row_fits(state, n),
        longest_row(state) < MAX_RECTS ==> !row_fits(state, longest_row(state) + 1),
{
}

/// A row that fits the buffers is uploaded without replacing either of them.
pub proof fn lemma_fitting_row_keeps_buffers(state: PainterState, count: nat)
    requires
        count <= MAX_RECTS,
        row_fits(state, count),
    ensures
        regrowth(state.vertex_capacity, (VERTEX_BYTES * (3 * count)) as u64) is None,
        regrowth(state.index_capacity, (INDEX_BYTES * (3 * count)) as u64) is None,
{
}

/// The byte images that `set_geometry` returns for a frame are exactly as
/// long as the byte ranges that `paint` reads for that frame.
pub proof fn lemma_upload_matches_draw(vertices: Seq<Vertex>, indexes: Seq<u32>)
    requires
        vertices.len() <= u32::MAX,
        indexes.len() <= u32::MAX,
    ensures
        le_bytes(vertex_words(vertices)).len() == VERTEX_BYTES * (vertices.len() as u32),
        le_bytes(indexes).len() == INDEX_BYTES * (indexes.len() as u32),
{
}

} // verus!
