//! Facts about sequences that are built from the left.

use vstd::prelude::*;

verus! {

/// The filter of one more item.
pub proof fn lemma_filter_next<T>(s: Seq<T>, kept: spec_fn(T) -> bool, i: int)
    requires
        0 <= i < s.len(),
    ensures
        s.take(i + 1).filter(kept) == (if kept(s[i]) {
            s.take(i).filter(kept).push(s[i])
        } else {
            s.take(i).filter(kept)
        }),
{
    reveal(Seq::filter);
    assert(s.take(i + 1).drop_last() =~= s.take(i));
}

/// The filter of nothing.
pub proof fn lemma_filter_none<T>(s: Seq<T>, kept: spec_fn(T) -> bool)
    ensures
        s.take(0).filter(kept) == Seq::<T>::empty(),
{
    reveal(Seq::filter);
    assert(s.take(0) =~= Seq::<T>::empty());
}

} // verus!
