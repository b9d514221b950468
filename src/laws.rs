use crate::leaky::{popped, pushed_within};
use vstd::prelude::*;

verus! {

/// The live values after `push_within_capacity` of each of `vs` in turn,
/// starting from the live values `s`, with capacity `cap`.
pub open spec fn pushed_all<T>(s: Seq<T>, cap: nat, vs: Seq<T>) -> Seq<T>
    decreases vs.len(),
{
    if vs.len() == 0 {
        s
    } else {
        pushed_within(pushed_all(s, cap, vs.drop_last()), cap, vs.last()).0
    }
}

/// The live values after `n` calls of `pop` starting from the live values `s`,
/// and the values those calls returned, in the order they returned them.
pub open spec fn popped_n<T>(s: Seq<T>, n: nat) -> (Seq<T>, Seq<Option<T>>)
    decreases n,
{
    if n == 0 {
        (s, Seq::empty())
    } else {
        let prev = popped_n(s, (n - 1) as nat);
        let step = popped(prev.0);
        (step.0, prev.1.push(step.1))
    }
}

proof fn lemma_pushed_all_len<T>(cap: nat, vs: Seq<T>)
    ensures
        pushed_all(Seq::<T>::empty(), cap, vs).len() == if vs.len() <= cap {
            vs.len()
        } else {
            cap
        },
        vs.len() <= cap ==> pushed_all(Seq::<T>::empty(), cap, vs) == vs,
    decreases vs.len(),
{
    if vs.len() > 0 {
        lemma_pushed_all_len(cap, vs.drop_last());
        if vs.len() <= cap {
            assert(vs.drop_last().push(vs.last()) =~= vs);
        }
    }
}

proof fn lemma_popped_n<T>(s: Seq<T>, n: nat)
    requires
        n <= s.len(),
    ensures
        popped_n(s, n).0 == s.subrange(0, s.len() - n),
        popped_n(s, n).1.len() == n,
        forall|i: int| 0 <= i < n ==> #[trigger] popped_n(s, n).1[i] == Some(s[s.len() - 1 - i]),
    decreases n,
{
    if n == 0 {
        assert(s.subrange(0, s.len() as int) =~= s);
    } else {
        lemma_popped_n(s, (n - 1) as nat);
        let prev = popped_n(s, (n - 1) as nat);
        assert(prev.0.drop_last() =~= s.subrange(0, s.len() - n));
    }
}

/// Capacity bound: however many values are offered to `push_within_capacity`
/// on an empty buffer of capacity `cap`, the length never exceeds `cap`; once
/// `cap` values are in, the next call fails, hands its value back unchanged
/// and leaves the buffer as it was.
pub proof fn lemma_capacity_bound<T>(cap: nat, vs: Seq<T>)
    ensures
        pushed_all(Seq::<T>::empty(), cap, vs).len() <= cap,
        vs.len() <= cap ==> pushed_all(Seq::<T>::empty(), cap, vs).len() == vs.len(),
        vs.len() > cap ==> ({
            let full = pushed_all(Seq::<T>::empty(), cap, vs.take(cap as int));
            &&& full.len() == cap
            &&& pushed_within(full, cap, vs[cap as int]) == (full, Err::<(), T>(vs[cap as int]))
        }),
{
    lemma_pushed_all_len(cap, vs);
    if vs.len() > cap {
        lemma_pushed_all_len(cap, vs.take(cap as int));
    }
}

/// Stack discipline: after pushing `vs` (no more than `cap` of them) onto an
/// empty buffer of capacity `cap`, `vs.len()` pops return the values in
/// reverse order, and one more pop returns nothing.
pub proof fn lemma_stack_discipline<T>(cap: nat, vs: Seq<T>)
    requires
        vs.len() <= cap,
    ensures
        pushed_all(Seq::<T>::empty(), cap, vs) == vs,
        popped_n(vs, vs.len()).1.len() == vs.len(),
        forall|i: int|
            0 <= i < vs.len() ==> #[trigger] popped_n(vs, vs.len()).1[i] == Some(
                vs[vs.len() - 1 - i],
            ),
        popped(popped_n(vs, vs.len()).0).1 == None::<T>,
{
    lemma_pushed_all_len(cap, vs);
    lemma_popped_n(vs, vs.len());
}

/// Round trip: pushing `vs` (no more than `cap` of them) onto an empty buffer
/// of capacity `cap` and popping as many times leaves it empty, and a further
/// pop returns nothing and leaves it empty.
pub proof fn lemma_round_trip<T>(cap: nat, vs: Seq<T>)
    requires
        vs.len() <= cap,
    ensures
        popped_n(pushed_all(Seq::<T>::empty(), cap, vs), vs.len()).0.len() == 0,
        popped(popped_n(pushed_all(Seq::<T>::empty(), cap, vs), vs.len()).0) == (
            Seq::<T>::empty(),
            None::<T>,
        ),
{
    lemma_pushed_all_len(cap, vs);
    lemma_popped_n(vs, vs.len());
    assert(popped_n(vs, vs.len()).0 =~= Seq::<T>::empty());
}

} // verus!
