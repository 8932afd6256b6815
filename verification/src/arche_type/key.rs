//! The lists of components that arche types are found by.

use crate::storage::ComponentId;
use vstd::prelude::*;

verus! {

/// The list has the given components, in ascending order, each once.
pub open spec fn is_key(key: Seq<ComponentId>, components: Set<ComponentId>) -> bool {
    &&& forall|i: int, j: int| 0 <= i < j < key.len() ==> key[i] < key[j]
    &&& key.to_set() == components
}

/// A set of components has one such list.
pub proof fn lemma_key_unique(
    a: Seq<ComponentId>,
    b: Seq<ComponentId>,
    components: Set<ComponentId>,
)
    requires
        is_key(a, components),
        is_key(b, components),
    ensures
        a == b,
    decreases a.len(),
{
    if a.len() == 0 {
        if b.len() > 0 {
            assert(b.to_set().contains(b[0]));
            assert(!a.contains(b[0]));
        }
        assert(a =~= b);
    } else {
        assert(a.to_set().contains(a.last()));
        let j = choose|j: int| 0 <= j < b.len() && b[j] == a.last();
        assert(b.contains(a.last()));
        assert(b.to_set().contains(b.last()));
        assert(a.contains(b.last()));
        let i = choose|i: int| 0 <= i < a.len() && a[i] == b.last();
        assert(a.last() == b.last());
        lemma_key_drop_last(a, components);
        lemma_key_drop_last(b, components);
        lemma_key_unique(a.drop_last(), b.drop_last(), components.remove(a.last()));
        assert(a =~= a.drop_last().push(a.last()));
        assert(b =~= b.drop_last().push(b.last()));
    }
}

/// Without its last component, a list stands for the rest of the components.
proof fn lemma_key_drop_last(key: Seq<ComponentId>, components: Set<ComponentId>)
    requires
        is_key(key, components),
        key.len() > 0,
    ensures
        is_key(key.drop_last(), components.remove(key.last())),
{
    let rest = key.drop_last();
    assert forall|c: ComponentId| rest.to_set().contains(c) <==> components.remove(
        key.last(),
    ).contains(c) by {
        if rest.to_set().contains(c) {
            let i = choose|i: int| 0 <= i < rest.len() && rest[i] == c;
            assert(key[i] == c);
            assert(key.to_set().contains(c));
        }
        if components.remove(key.last()).contains(c) {
            assert(key.to_set().contains(c));
            let i = choose|i: int| 0 <= i < key.len() && key[i] == c;
            assert(rest[i] == c);
        }
    }
    assert(rest.to_set() =~= components.remove(key.last()));
}

/// Putting a list without repetitions in order gives the list that stands for its components.
pub proof fn lemma_key_sorted(before: Seq<ComponentId>, after: Seq<ComponentId>)
    requires
        before.no_duplicates(),
        after.to_multiset() == before.to_multiset(),
        forall|i: int, j: int| 0 <= i <= j < after.len() ==> after[i] <= after[j],
    ensures
        is_key(after, before.to_set()),
{
    before.to_multiset_ensures();
    after.to_multiset_ensures();
    before.lemma_multiset_has_no_duplicates();
    after.lemma_multiset_has_no_duplicates_conv();
    assert forall|i: int, j: int| 0 <= i < j < after.len() implies after[i] < after[j] by {
        assert(after[i] != after[j]);
    }
    assert forall|c: ComponentId| after.to_set().contains(c) <==> before.to_set().contains(c) by {
        assert(after.contains(c) <==> after.to_multiset().count(c) > 0);
        assert(before.contains(c) <==> before.to_multiset().count(c) > 0);
    }
    assert(after.to_set() =~= before.to_set());
}

} // verus!
