//! Places in a row of rectangles.
//!
//! A row of `count` rectangles is laid out over `count + 1` equal divisions
//! of its bounding box, so that every column centre lies strictly inside the
//! box, and neighbouring rectangles turn in opposite directions.

use vstd::prelude::*;

verus! {

/// Direction in which the rectangle at `index` turns: `1` at odd places,
/// `-1` at even ones.
pub open spec fn spin_sign(index: nat) -> int {
    if index % 2 == 1 {
        1
    } else {
        -1
    }
}

/// The place of one rectangle in a row of `count`.
#[derive(Clone, Copy, Debug)]
pub struct RectSlot {
    /// Position in the row, counted from zero.
    pub index: u32,
    /// Number of rectangles in the row.
    pub count: u32,
}

/// The slot of the rectangle at `index` in a row of `count`.
pub open spec fn slot_at(index: int, count: int) -> RectSlot {
    RectSlot { index: index as u32, count: count as u32 }
}

impl RectSlot {
    /// A slot names a rectangle that exists: its index is below the count.
    pub open spec fn wf(self) -> bool {
        self.index < self.count
    }

    /// Number of equal divisions the row is cut into, one more than the
    /// number of rectangles. It is computed in 64 bits and is never zero, so
    /// it is always safe to divide by.
    pub fn divisions(&self) -> (d: u64)
        ensures
            d == self.count + 1,
            d >= 1,
    {
        self.count as u64 + 1
    }

    /// Direction in which this rectangle turns, as a factor for the shared
    /// rotation angle.
    pub fn spin(&self) -> (s: i8)
        ensures
            s == spin_sign(self.index as nat),
    {
        let index: u32 = self.index;
        assert((index & 1 == 1) == (index % 2 == 1)) by (bit_vector);
        if index & 1 == 1 {
            1
        } else {
            -1
        }
    }
}

/// Builds a row of `count` rectangles by running `place` once for every
/// slot, in index order.
pub fn make_rects<R, F: Fn(RectSlot) -> R>(count: u32, place: F) -> (rects: Vec<R>)
    requires
        forall|i: int| 0 <= i < count ==> call_requires(place, (#[trigger] slot_at(i, count as int),)),
    ensures
        rects@.len() == count,
        forall|i: int|
            0 <= i < count ==> call_ensures(
                place,
                (slot_at(i, count as int),),
                #[trigger] rects@[i],
            ),
{
    let mut rects: Vec<R> = Vec::new();
    let mut index: u32 = 0;
    while index < count
        invariant
            index <= count,
            rects@.len() == index,
            forall|i: int| 0 <= i < count ==> call_requires(place, (#[trigger] slot_at(i, count as int),)),
            forall|i: int|
                0 <= i < index ==> call_ensures(
                    place,
                    (slot_at(i, count as int),),
                    #[trigger] rects@[i],
                ),
        decreases count - index,
    {
        let slot = RectSlot { index, count };
        assert(slot == slot_at(index as int, count as int));
        let rect = place(slot);
        rects.push(rect);
        index = index + 1;
    }
    rects
}

/// Neighbouring rectangles turn in opposite directions. Their spin factors
/// cancel, so for any angle shared by the row the signed angles of two
/// neighbours never have a positive product.
pub proof fn lemma_neighbours_counter_rotate(index: nat, angle: int)
    ensures
        spin_sign(index) + spin_sign(index + 1) == 0,
        (angle * spin_sign(index)) * (angle * spin_sign(index + 1)) <= 0,
{
    let here = spin_sign(index);
    let next = spin_sign(index + 1);
    assert(here == -next);
    assert((angle * here) * (angle * next) <= 0) by (nonlinear_arith)
        requires
            here == -next,
    ;
}

/// The centre of column `index` sits `2 * index + 1` half-divisions from the
/// left edge of a box that is `2 * (count + 1)` half-divisions wide. For every
/// rectangle of the row that is strictly between the two edges.
pub proof fn lemma_column_centre_inside(slot: RectSlot)
    requires
        slot.wf(),
    ensures
        0 < 2 * slot.index + 1 < 2 * (slot.count + 1),
{
}

} // verus!
