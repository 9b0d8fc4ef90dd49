//! Painters owned in one place and named by handles.
//!
//! A widget does not hold its painter. It registers the painter once and
//! keeps the handle it gets back, and the render pass looks the painter up
//! by that handle every frame. Painters are never removed, so a handle keeps
//! naming the painter it was issued for.

use vstd::prelude::*;

verus! {

/// Names one painter of a `PainterArena`.
#[derive(Clone, Copy, Debug)]
pub struct PainterId {
    /// Position of the painter in the arena.
    pub index: usize,
}

/// The painters that the widgets of one window have registered, in the order
/// of their registration.
pub struct PainterArena<T> {
    painters: Vec<T>,
}

impl<T> View for PainterArena<T> {
    type V = Seq<T>;

    closed spec fn view(&self) -> Seq<T> {
        self.painters@
    }
}

impl<T> PainterArena<T> {
    /// An arena without painters.
    pub fn new() -> (arena: Self)
        ensures
            arena@ == Seq::<T>::empty(),
    {
        PainterArena { painters: Vec::new() }
    }

    /// Number of painters registered so far.
    pub fn len(&self) -> (n: usize)
        ensures
            n == self@.len(),
    {
        self.painters.len()
    }

    /// Registers `painter` behind all earlier ones and returns its handle.
    pub fn insert(&mut self, painter: T) -> (id: PainterId)
        ensures
            final(self)@ == old(self)@.push(painter),
            id.index == old(self)@.len(),
    {
        let index = self.painters.len();
        self.painters.push(painter);
        PainterId { index }
    }

    /// The painter that `id` names, if this arena has issued `id`.
    pub fn get(&self, id: PainterId) -> (found: Option<&T>)
        ensures
            id.index < self@.len() ==> found == Some(&self@[id.index as int]),
            id.index >= self@.len() ==> found is None,
    {
        if id.index < self.painters.len() {
            Some(&self.painters[id.index])
        } else {
            None
        }
    }

    /// The painter that `id` names, for changing it in place.
    pub fn get_mut(&mut self, id: PainterId) -> (found: Option<&mut T>)
        ensures
            id.index >= old(self)@.len() ==> found is None && final(self)@ == old(self)@,
            id.index < old(self)@.len() ==> found is Some && *found->0 == old(self)@[id.index as int]
                && final(self)@ == old(self)@.update(id.index as int, *final(found->0)),
    {
        if id.index < self.painters.len() {
            Some(&mut self.painters[id.index])
        } else {
            None
        }
    }
}

/// A handle issued by `insert` names the painter it was issued for, and keeps
/// naming it however many painters are registered afterwards.
pub proof fn lemma_handles_stay_valid<T>(before: Seq<T>, painter: T, later: Seq<T>)
    ensures
        (before.push(painter) + later)[before.len() as int] == painter,
        forall|i: int| 0 <= i < before.len() ==> (before.push(painter) + later)[i] == before[i],
{
}

} // verus!
