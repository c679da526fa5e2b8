//! Facts about sequences.

use vstd::prelude::*;

verus! {

/// What is kept of one more value.
pub proof fn lemma_filter_step<A>(all: Seq<A>, keep: spec_fn(A) -> bool, k: int)
    requires
        0 <= k < all.len(),
    ensures
        all.take(k + 1).filter(keep) == if keep(all[k]) {
            all.take(k).filter(keep).push(all[k])
        } else {
            all.take(k).filter(keep)
        },
{
    reveal(Seq::filter);
    assert(all.take(k + 1).drop_last() =~= all.take(k));
}

/// Every value that is kept was there, and every value that is there and to be kept is kept.
pub proof fn lemma_filter_contains<A>(all: Seq<A>, keep: spec_fn(A) -> bool, value: A)
    ensures
        all.filter(keep).contains(value) == (all.contains(value) && keep(value)),
    decreases all.len(),
{
    reveal(Seq::filter);
    if all.len() > 0 {
        let shorter = all.drop_last();
        lemma_filter_contains(shorter, keep, value);
        if shorter.contains(value) {
            let i = choose|i: int| 0 <= i < shorter.len() && shorter[i] == value;
            assert(all[i] == value);
        }
        if all.contains(value) && all.last() != value {
            let i = choose|i: int| 0 <= i < all.len() && all[i] == value;
            assert(shorter[i] == value);
        }
        let kept = shorter.filter(keep);
        if keep(all.last()) {
            let more = kept.push(all.last());
            assert(all.filter(keep) =~= more);
            assert(more[kept.len() as int] == all.last());
            if kept.contains(value) {
                let i = choose|i: int| 0 <= i < kept.len() && kept[i] == value;
                assert(more[i] == value);
            }
        } else {
            assert(all.filter(keep) =~= kept);
        }
    }
}

/// Nothing is lost where every value is kept.
pub proof fn lemma_filter_all<A>(all: Seq<A>, keep: spec_fn(A) -> bool)
    requires
        forall|i: int| 0 <= i < all.len() ==> keep(#[trigger] all[i]),
    ensures
        all.filter(keep) == all,
    decreases all.len(),
{
    reveal(Seq::filter);
    if all.len() > 0 {
        let shorter = all.drop_last();
        assert forall|i: int| 0 <= i < shorter.len() implies keep(#[trigger] shorter[i]) by {
            assert(keep(all[i]));
        }
        lemma_filter_all(shorter, keep);
        assert(keep(all[all.len() - 1]));
        assert(all.filter(keep) =~= all);
    } else {
        assert(all.filter(keep) =~= all);
    }
}

} // verus!
