//! Facts about sequences that several modules use.

use vstd::prelude::*;

verus! {

/// Filtering one element more of a sequence appends that element where the
/// predicate holds of it.
pub proof fn lemma_filter_step<A>(s: Seq<A>, keep: spec_fn(A) -> bool, i: int)
    requires
        0 <= i < s.len(),
    ensures
        s.take(i + 1).filter(keep) == if keep(s[i]) {
            s.take(i).filter(keep).push(s[i])
        } else {
            s.take(i).filter(keep)
        },
{
    reveal(Seq::filter);
    assert(s.take(i + 1).drop_last() =~= s.take(i));
    assert(s.take(i + 1).last() == s[i]);
}

} // verus!
