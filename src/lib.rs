//! A bounded vector: a sequence whose length never exceeds a capacity `C`
//! fixed in its type, pushed and popped at its end.
//!
//! `LeakyQVec` is the raw buffer; `QVec` is the facade that applications use.
//! Duplication comes in two strategies, picked by the element type's
//! capabilities at the call site: `clone` runs each element's own duplication
//! logic (any `T: Clone`), `copied` makes a flat copy (`T: Copy`). Every value
//! that the buffer still owns is torn down exactly once, by `clear` or when the
//! buffer goes out of scope; `pop` hands ownership to the caller instead.

mod laws;
mod leaky;

use vstd::pervasive::strictly_cloned;
use vstd::prelude::*;


pub use laws::{lemma_capacity_bound, lemma_round_trip, lemma_stack_discipline, popped_n, pushed_all};
pub use leaky::{popped, pushed_within, LeakyQVec};

verus! {

/// The bounded vector of at most `C` values of type `T`.
pub struct QVec<T, const C: usize>(LeakyQVec<T, C>);

impl<T, const C: usize> View for QVec<T, C> {
    type V = Seq<T>;

    closed spec fn view(&self) -> Seq<T> {
        self.0@
    }
}

impl<T, const C: usize> QVec<T, C> {
    /// The vector never holds more than `C` values.
    pub open spec fn wf(&self) -> bool {
        self@.len() <= C
    }

    /// An empty vector.
    pub fn new() -> (r: Self)
        ensures
            r.wf(),
            r@ == Seq::<T>::empty(),
    {
        QVec(LeakyQVec::new())
    }

    /// The fixed capacity `C`.
    pub fn capacity(&self) -> (r: usize)
        ensures
            r == C,
    {
        self.0.capacity()
    }

    /// Appends `value`; the caller guarantees that there is room for it.
    pub fn push_unchecked(&mut self, value: T)
        requires
            old(self).wf(),
            old(self)@.len() < C,
        ensures
            final(self).wf(),
            final(self)@ == old(self)@.push(value),
    {
        self.0.push_unchecked(value)
    }

    /// Appends `value`; there must be room for it.
    pub fn push(&mut self, value: T)
        requires
            old(self).wf(),
            old(self)@.len() < C,
        ensures
            final(self).wf(),
            final(self)@ == old(self)@.push(value),
    {
        self.0.push(value)
    }

    /// Appends `value` when the vector is not full; on a full vector hands
    /// `value` back unchanged and changes nothing.
    pub fn push_within_capacity(&mut self, value: T) -> (r: Result<(), T>)
        requires
            old(self).wf(),
        ensures
            final(self).wf(),
            (final(self)@, r) == pushed_within(old(self)@, C as nat, value),
    {
        self.0.push_within_capacity(value)
    }

    /// Moves the most recently pushed value out to the caller, or returns
    /// `None` on an empty vector.
    pub fn pop(&mut self) -> (r: Option<T>)
        requires
            old(self).wf(),
        ensures
            final(self).wf(),
            (final(self)@, r) == popped(old(self)@),
    {
        self.0.pop()
    }

    /// Tears down every value; the vector is then empty.
    pub fn clear(&mut self)
        requires
            old(self).wf(),
        ensures
            final(self).wf(),
            final(self)@ == Seq::<T>::empty(),
    {
        self.0.clear()
    }

    /// The number of values.
    pub fn len(&self) -> (r: usize)
        ensures
            r == self@.len(),
    {
        self.0.len()
    }

    /// The values, as a slice of length `len()`.
    pub fn as_slice(&self) -> (r: &[T])
        ensures
            r@ == self@,
    {
        self.0.as_slice()
    }

    /// Replaces the value at `index` with `value`.
    pub fn set(&mut self, index: usize, value: T)
        requires
            old(self).wf(),
            index < old(self)@.len(),
        ensures
            final(self).wf(),
            final(self)@ == old(self)@.update(index as int, value),
    {
        self.0.set(index, value)
    }
}

impl<T: Copy, const C: usize> QVec<T, C> {
    /// Duplicates the vector by a flat copy of its values; no element's own
    /// duplication logic runs.
    pub fn copied(&self) -> (r: Self)
        requires
            self.wf(),
        ensures
            r.wf(),
            r@ == self@,
    {
        QVec(self.0.copied())
    }
}

impl<T: Clone, const C: usize> Clone for QVec<T, C> {
    /// Duplicates the vector element by element: each value's own duplication
    /// logic runs once, from the first index to the last.
    fn clone(&self) -> (r: Self)
        ensures
            r@.len() == self@.len(),
            forall|i: int| 0 <= i < self@.len() ==> strictly_cloned(self@[i], #[trigger] r@[i]),
    {
        QVec(self.0.clone())
    }
}

impl<T, const C: usize> Default for QVec<T, C> {
    /// An empty vector.
    fn default() -> (r: Self)
        ensures
            r.wf(),
            r@ == Seq::<T>::empty(),
    {
        Self::new()
    }
}

} // verus!
