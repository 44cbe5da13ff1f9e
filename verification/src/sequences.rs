//! Where the elements of a sequence stand among those that are kept of it.

use vstd::prelude::*;

verus! {

/// An element that is kept stands after as many others as are kept of those before it.
pub(crate) proof fn lemma_filter_position<T>(s: Seq<T>, keep: spec_fn(T) -> bool, i: int)
    requires
        0 <= i < s.len(),
        keep(s[i]),
    ensures
        s.take(i).filter(keep).len() < s.filter(keep).len(),
        s.filter(keep)[s.take(i).filter(keep).len() as int] == s[i],
    decreases s.len(),
{
    reveal(Seq::filter);
    let shorter = s.drop_last();
    if i < s.len() - 1 {
        lemma_filter_position(shorter, keep, i);
        assert(shorter.take(i) =~= s.take(i));
    } else {
        assert(s.take(i) =~= shorter);
    }
}

/// To keep of what stands for elements is to keep of the elements themselves, where both are kept
/// by the same rule.
pub(crate) proof fn lemma_filter_of_map<T, U>(
    s: Seq<T>,
    map: spec_fn(T) -> U,
    keep: spec_fn(T) -> bool,
    keep_mapped: spec_fn(U) -> bool,
)
    requires
        forall|x: T| #[trigger] keep_mapped(map(x)) == keep(x),
    ensures
        s.map_values(map).filter(keep_mapped) == s.filter(keep).map_values(map),
    decreases s.len(),
{
    reveal(Seq::filter);
    if s.len() > 0 {
        let shorter = s.drop_last();
        lemma_filter_of_map(shorter, map, keep, keep_mapped);
        assert(s.map_values(map).drop_last() =~= shorter.map_values(map));
        assert(s.map_values(map).last() == map(s.last()));
        assert(keep_mapped(map(s.last())) == keep(s.last()));
        let kept = shorter.filter(keep);
        assert(kept.push(s.last()).map_values(map) =~= kept.map_values(map).push(map(s.last())));
    }
    assert(s.map_values(map).filter(keep_mapped) =~= s.filter(keep).map_values(map));
}

} // verus!
