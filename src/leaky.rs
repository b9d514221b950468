use vstd::pervasive::strictly_cloned;
use vstd::prelude::*;

verus! {

/// The state after `push_within_capacity(v)` on live values `s` with capacity
/// `cap`, and what the call returns: the value is appended when there is room,
/// else handed back with nothing changed.
pub open spec fn pushed_within<T>(s: Seq<T>, cap: nat, v: T) -> (Seq<T>, Result<(), T>) {
    if s.len() < cap {
        (s.push(v), Ok(()))
    } else {
        (s, Err(v))
    }
}

/// The state after `pop` on live values `s`, and what the call returns: the
/// most recently pushed value, or nothing when `s` is empty.
pub open spec fn popped<T>(s: Seq<T>) -> (Seq<T>, Option<T>) {
    if s.len() == 0 {
        (s, None)
    } else {
        (s.drop_last(), Some(s.last()))
    }
}

/// The raw bounded buffer: the live prefix of at most `C` values, pushed and
/// popped at its end.
pub struct LeakyQVec<T, const C: usize> {
    items: Vec<T>,
}

impl<T, const C: usize> View for LeakyQVec<T, C> {
    type V = Seq<T>;

    closed spec fn view(&self) -> Seq<T> {
        self.items@
    }
}

impl<T, const C: usize> LeakyQVec<T, C> {
    /// The buffer never holds more than `C` live values.
    pub open spec fn wf(&self) -> bool {
        self@.len() <= C
    }

    /// An empty buffer.
    pub fn new() -> (r: Self)
        ensures
            r.wf(),
            r@ == Seq::<T>::empty(),
    {
        LeakyQVec { items: Vec::new() }
    }

    /// The fixed capacity `C`.
    pub fn capacity(&self) -> (r: usize)
        ensures
            r == C,
    {
        C
    }

    /// Appends `value`; the caller guarantees that there is room for it.
    pub fn push_unchecked(&mut self, value: T)
        requires
            old(self).wf(),
            old(self)@.len() < C,
        ensures
            final(self).wf(),
            final(self)@ == old(self)@.push(value),
    {
        self.items.push(value);
    }

    /// Appends `value`; there must be room for it.
    pub fn push(&mut self, value: T)
        requires
            old(self).wf(),
            old(self)@.len() < C,
        ensures
            final(self).wf(),
            final(self)@ == old(self)@.push(value),
    {
        self.push_unchecked(value);
    }

    /// Appends `value` when the buffer is not full; on a full buffer hands
    /// `value` back unchanged and changes nothing.
    pub fn push_within_capacity(&mut self, value: T) -> (r: Result<(), T>)
        requires
            old(self).wf(),
        ensures
            final(self).wf(),
            (final(self)@, r) == pushed_within(old(self)@, C as nat, value),
    {
        if self.items.len() < C {
            self.items.push(value);
            Ok(())
        } else {
            Err(value)
        }
    }

    /// Moves the most recently pushed value out to the caller, or returns
    /// `None` on an empty buffer.
    pub fn pop(&mut self) -> (r: Option<T>)
        requires
            old(self).wf(),
        ensures
            final(self).wf(),
            (final(self)@, r) == popped(old(self)@),
    {
        self.items.pop()
    }

    /// Tears down every live value; the buffer is then empty.
    pub fn clear(&mut self)
        requires
            old(self).wf(),
        ensures
            final(self).wf(),
            final(self)@ == Seq::<T>::empty(),
    {
        self.items.clear();
    }

    /// The number of live values.
    pub fn len(&self) -> (r: usize)
        ensures
            r == self@.len(),
    {
        self.items.len()
    }

    /// Tears down the live prefix, once; no live value remains afterwards.
    pub fn drop(&mut self)
        requires
            old(self).wf(),
        ensures
            final(self).wf(),
            final(self)@ == Seq::<T>::empty(),
    {
        self.items.truncate(0);
    }

    /// The live values, as a slice of length `len()`.
    pub fn as_slice(&self) -> (r: &[T])
        ensures
            r@ == self@,
    {
        self.items.as_slice()
    }

    /// Replaces the live value at `index` with `value`.
    pub fn set(&mut self, index: usize, value: T)
        requires
            old(self).wf(),
            index < old(self)@.len(),
        ensures
            final(self).wf(),
            final(self)@ == old(self)@.update(index as int, value),
    {
        self.items.set(index, value);
    }
}

impl<T: Copy, const C: usize> LeakyQVec<T, C> {
    /// Duplicates the buffer by a flat copy of its live values; no element's
    /// own duplication logic runs.
    pub fn copied(&self) -> (r: Self)
        requires
            self.wf(),
        ensures
            r.wf(),
            r@ == self@,
    {
        let mut items: Vec<T> = Vec::new();
        let n: usize = self.items.len();
        let mut i: usize = 0;
        while i < n
            invariant
                n == self@.len(),
                i <= n,
                items@ == self@.subrange(0, i as int),
            decreases n - i,
        {
            items.push(self.items[i]);
            i = i + 1;
        }
        proof {
            assert(self@.subrange(0, n as int) =~= self@);
        }
        LeakyQVec { items }
    }
}

impl<T: Clone, const C: usize> Clone for LeakyQVec<T, C> {
    /// Duplicates the buffer element by element: each live value's own
    /// duplication logic runs once, from the first index to the last.
    fn clone(&self) -> (r: Self)
        ensures
            r@.len() == self@.len(),
            forall|i: int| 0 <= i < self@.len() ==> strictly_cloned(self@[i], #[trigger] r@[i]),
    {
        let mut items: Vec<T> = Vec::new();
        let n: usize = self.items.len();
        let mut i: usize = 0;
        while i < n
            invariant
                n == self@.len(),
                i <= n,
                items@.len() == i,
                forall|j: int| 0 <= j < i ==> strictly_cloned(self@[j], #[trigger] items@[j]),
            decreases n - i,
        {
            let v: T = self.items[i].clone();
            items.push(v);
            i = i + 1;
        }
        LeakyQVec { items }
    }
}

impl<T, const C: usize> Default for LeakyQVec<T, C> {
    /// An empty buffer.
    fn default() -> (r: Self)
        ensures
            r.wf(),
            r@ == Seq::<T>::empty(),
    {
        Self::new()
    }
}

} // verus!
