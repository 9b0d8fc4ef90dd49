//! One triangle per rectangle.
//!
//! Every rectangle is drawn with a single triangle whose three corners carry
//! the texture coordinates a fragment stage needs to cut the rectangle out of
//! it. The vertex buffer holds the corners of rectangle `k` at positions
//! `3k`, `3k + 1` and `3k + 2`, and the index buffer is the identity: no
//! vertex is shared between rectangles.

use vstd::prelude::*;

verus! {

/// Number of vertices emitted for each rectangle.
pub const VERTICES_PER_RECT: usize = 3;

/// Largest number of rectangles whose vertices can all be addressed by a
/// 32-bit index.
pub const MAX_RECTS: u32 = 1_431_655_765;

/// The three corners that stand for one rectangle.
#[derive(Clone, Copy, Debug)]
pub struct Triangle<V> {
    /// The corner that coincides with the rectangle's own corner.
    pub a: V,
    /// The corner at the far end of the leg along the rectangle's width.
    pub b: V,
    /// The corner at the far end of the leg along the rectangle's height.
    pub c: V,
}

impl<V> Triangle<V> {
    /// Applies the same transform to all three corners, `a` first.
    pub fn map<W, F: Fn(V) -> W>(self, transform: F) -> (moved: Triangle<W>)
        requires
            call_requires(transform, (self.a,)),
            call_requires(transform, (self.b,)),
            call_requires(transform, (self.c,)),
        ensures
            call_ensures(transform, (self.a,), moved.a),
            call_ensures(transform, (self.b,), moved.b),
            call_ensures(transform, (self.c,), moved.c),
    {
        let Triangle { a, b, c } = self;
        let a = transform(a);
        let b = transform(b);
        let c = transform(c);
        Triangle { a, b, c }
    }
}

/// The triangle stored for rectangle `k` in a flat vertex sequence.
pub open spec fn triangle_at<V>(vertices: Seq<V>, k: int) -> Triangle<V> {
    Triangle { a: vertices[3 * k], b: vertices[3 * k + 1], c: vertices[3 * k + 2] }
}

/// The index sequence `0, 1, ..., n - 1`.
pub open spec fn identity_indices(n: nat) -> Seq<u32> {
    Seq::new(n, |i: int| i as u32)
}

/// Turns rectangles into a vertex buffer and an index buffer.
///
/// `mk_vertices` computes the triangle of one rectangle. The triangles are
/// stored in the order of the rectangles, corners in the order `a`, `b`, `c`,
/// and the indices count up from zero, one per vertex.
pub fn encode_geometry<R, V, F: Fn(&R) -> Triangle<V>>(rects: &[R], mk_vertices: F) -> (out: (
    Vec<V>,
    Vec<u32>,
))
    requires
        rects@.len() <= MAX_RECTS,
        forall|k: int| 0 <= k < rects@.len() ==> call_requires(mk_vertices, (&#[trigger] rects@[k],)),
    ensures
        out.0@.len() == VERTICES_PER_RECT * rects@.len(),
        forall|k: int|
            0 <= k < rects@.len() ==> call_ensures(
                mk_vertices,
                (&#[trigger] rects@[k],),
                triangle_at(out.0@, k),
            ),
        out.1@ == identity_indices(out.0@.len()),
{
    let mut vertices: Vec<V> = Vec::new();
    let mut indices: Vec<u32> = Vec::new();
    let mut k: usize = 0;
    while k < rects.len()
        invariant
            k <= rects@.len(),
            rects@.len() <= MAX_RECTS,
            forall|j: int| 0 <= j < rects@.len() ==> call_requires(mk_vertices, (&#[trigger] rects@[j],)),
            vertices@.len() == 3 * k,
            forall|j: int|
                0 <= j < k ==> call_ensures(
                    mk_vertices,
                    (&#[trigger] rects@[j],),
                    triangle_at(vertices@, j),
                ),
            indices@ == identity_indices(vertices@.len()),
        decreases rects@.len() - k,
    {
        let ghost before = vertices@;
        let made = mk_vertices(&rects[k]);
        let ghost made_spec = made;
        let Triangle { a, b, c } = made;
        let first: u32 = (3 * k) as u32;
        vertices.push(a);
        vertices.push(b);
        vertices.push(c);
        indices.push(first);
        indices.push(first + 1);
        indices.push(first + 2);
        proof {
            assert(triangle_at(vertices@, k as int) == made_spec);
            assert forall|j: int| 0 <= j < k + 1 implies call_ensures(
                mk_vertices,
                (&#[trigger] rects@[j],),
                triangle_at(vertices@, j),
            ) by {
                if j < k {
                    assert(triangle_at(vertices@, j) == triangle_at(before, j));
                }
            }
            assert(indices@ =~= identity_indices(vertices@.len()));
        }
        k = k + 1;
    }
    (vertices, indices)
}

/// Every index names its own position. The three indices of rectangle `k`
/// are `3k`, `3k + 1` and `3k + 2`, the places of its own three vertices, so
/// no vertex is shared between two rectangles.
pub proof fn lemma_indices_name_own_triangle(rects: nat, k: int, corner: int)
    requires
        rects <= MAX_RECTS,
        0 <= k < rects,
        0 <= corner < VERTICES_PER_RECT,
    ensures
        identity_indices(VERTICES_PER_RECT as nat * rects).len() == 3 * rects,
        identity_indices(VERTICES_PER_RECT as nat * rects)[3 * k + corner] == 3 * k + corner,
{
}

} // verus!
