//! Grouping pairs by their key, as a map from keys to lists of values is
//! filled: the groups in the order in which their keys first occur, each
//! group with the values of its key in their order.

use vstd::prelude::*;

verus! {

/// The position of the first group whose key is `key`, if there is one.
pub open spec fn group_position<K, V>(gs: Seq<(K, Seq<V>)>, key: K) -> Option<int>
    decreases gs.len(),
{
    if gs.len() == 0 {
        None
    } else {
        match group_position(gs.drop_last(), key) {
            Some(i) => Some(i),
            None => if gs.last().0 == key {
                Some(gs.len() - 1)
            } else {
                None
            },
        }
    }
}

/// The groups after adding the pair `p`: its value goes to the group of its
/// key where there is one, else to a new group at the end.
pub open spec fn add_to_groups<K, V>(gs: Seq<(K, Seq<V>)>, p: (K, V)) -> Seq<(K, Seq<V>)> {
    match group_position(gs, p.0) {
        Some(k) => gs.update(k, (gs[k].0, gs[k].1.push(p.1))),
        None => gs.push((p.0, seq![p.1])),
    }
}

/// The pairs `ps` grouped by key.
pub open spec fn spec_group_pairs<K, V>(ps: Seq<(K, V)>) -> Seq<(K, Seq<V>)>
    decreases ps.len(),
{
    if ps.len() == 0 {
        Seq::empty()
    } else {
        add_to_groups(spec_group_pairs(ps.drop_last()), ps.last())
    }
}

/// The values of the pairs of `ps` whose key is `key`, in order.
pub open spec fn values_for<K, V>(ps: Seq<(K, V)>, key: K) -> Seq<V>
    decreases ps.len(),
{
    if ps.len() == 0 {
        Seq::empty()
    } else if ps.last().0 == key {
        values_for(ps.drop_last(), key).push(ps.last().1)
    } else {
        values_for(ps.drop_last(), key)
    }
}

/// `group_position` finds the first group with the key, and none only where
/// no group has it.
pub proof fn lemma_group_position<K, V>(gs: Seq<(K, Seq<V>)>, key: K)
    ensures
        group_position(gs, key) matches Some(k) ==> {
            &&& 0 <= k < gs.len()
            &&& gs[k].0 == key
            &&& forall|j: int| 0 <= j < k ==> (#[trigger] gs[j]).0 != key
        },
        group_position(gs, key) is None ==> forall|j: int|
            0 <= j < gs.len() ==> (#[trigger] gs[j]).0 != key,
    decreases gs.len(),
{
    if gs.len() > 0 {
        lemma_group_position(gs.drop_last(), key);
        assert forall|j: int| 0 <= j < gs.len() - 1 implies #[trigger] gs[j] == gs.drop_last()[j] by {}
    }
}

/// Where a prefix of the groups has a group of `key`, the first such group
/// of all the groups is the first one of the prefix.
pub proof fn lemma_group_position_prefix<K, V>(gs: Seq<(K, Seq<V>)>, k: int, key: K)
    requires
        0 <= k <= gs.len(),
    ensures
        group_position(gs.take(k), key) is Some ==> group_position(gs, key) == group_position(
            gs.take(k),
            key,
        ),
    decreases gs.len() - k,
{
    if k < gs.len() {
        lemma_group_position_prefix(gs, k + 1, key);
        assert(gs.take(k + 1).drop_last() =~= gs.take(k));
    } else {
        assert(gs.take(k) =~= gs);
    }
}

/// Where no pair of `ps` has the key `key`, no value is found for it.
proof fn lemma_values_for_absent<K, V>(ps: Seq<(K, V)>, key: K)
    requires
        forall|i: int| 0 <= i < ps.len() ==> (#[trigger] ps[i]).0 != key,
    ensures
        values_for(ps, key) == Seq::<V>::empty(),
    decreases ps.len(),
{
    if ps.len() > 0 {
        assert forall|i: int| 0 <= i < ps.len() - 1 implies (#[trigger] ps.drop_last()[i]).0
            != key by {
            assert(ps.drop_last()[i] == ps[i]);
        }
        lemma_values_for_absent(ps.drop_last(), key);
        assert(ps[ps.len() - 1] == ps.last());
    }
}

/// Grouping pairs by key fills a map from keys to lists: no two groups have
/// the same key, each group holds exactly the values of its key in their
/// order, and every pair's key has a group.
pub proof fn lemma_group_pairs<K, V>(ps: Seq<(K, V)>)
    ensures
        forall|i: int, j: int|
            0 <= i < j < spec_group_pairs(ps).len() ==> (#[trigger] spec_group_pairs(ps)[i]).0
                != (#[trigger] spec_group_pairs(ps)[j]).0,
        forall|k: int|
            0 <= k < spec_group_pairs(ps).len() ==> (#[trigger] spec_group_pairs(ps)[k]).1
                == values_for(ps, spec_group_pairs(ps)[k].0),
        forall|i: int|
            0 <= i < ps.len() ==> (#[trigger] group_position(spec_group_pairs(ps), ps[i].0)) is Some,
        forall|k: int|
            0 <= k < spec_group_pairs(ps).len() ==> (#[trigger] spec_group_pairs(ps)[k]).1.len() > 0,
    decreases ps.len(),
{
    if ps.len() > 0 {
        let prev = ps.drop_last();
        let d = ps.last();
        lemma_group_pairs(prev);
        let gs = spec_group_pairs(prev);
        let gs2 = spec_group_pairs(ps);
        assert(gs2 == add_to_groups(gs, d));
        lemma_group_position(gs, d.0);
        match group_position(gs, d.0) {
            Some(p) => {
                assert(gs2 == gs.update(p, (gs[p].0, gs[p].1.push(d.1))));
                assert forall|k: int| 0 <= k < gs2.len() implies (#[trigger] gs2[k]).1.len() > 0 by {
                    if k != p {
                        assert(gs2[k] == gs[k]);
                    }
                }
                assert forall|k: int| 0 <= k < gs2.len() implies (#[trigger] gs2[k]).1
                    == values_for(ps, gs2[k].0) by {
                    if k != p {
                        assert(gs2[k] == gs[k]);
                        assert(gs[k].0 != gs[p].0);
                    }
                }
                assert forall|i: int, j: int| 0 <= i < j < gs2.len() implies (#[trigger] gs2[i]).0
                    != (#[trigger] gs2[j]).0 by {
                    assert(gs2[i].0 == gs[i].0);
                    assert(gs2[j].0 == gs[j].0);
                }
                assert forall|i: int| 0 <= i < ps.len() implies (#[trigger] group_position(
                    gs2,
                    ps[i].0,
                )) is Some by {
                    lemma_group_position(gs2, ps[i].0);
                    if i < ps.len() - 1 {
                        assert(ps[i] == prev[i]);
                        lemma_group_position(gs, prev[i].0);
                        let k = group_position(gs, prev[i].0).unwrap();
                        assert(gs2[k].0 == ps[i].0);
                    } else {
                        assert(gs2[p].0 == ps[i].0);
                    }
                }
            },
            None => {
                assert(gs2 == gs.push((d.0, seq![d.1])));
                assert forall|k: int| 0 <= k < gs2.len() implies (#[trigger] gs2[k]).1.len() > 0 by {
                    if k < gs.len() {
                        assert(gs2[k] == gs[k]);
                    }
                }
                assert forall|i: int| 0 <= i < prev.len() implies (#[trigger] prev[i]).0 != d.0 by {
                    lemma_group_position(gs, prev[i].0);
                    if prev[i].0 == d.0 {
                        let k = group_position(gs, prev[i].0).unwrap();
                        assert(gs[k].0 == d.0);
                    }
                }
                lemma_values_for_absent(prev, d.0);
                assert forall|k: int| 0 <= k < gs2.len() implies (#[trigger] gs2[k]).1
                    == values_for(ps, gs2[k].0) by {
                    if k < gs.len() {
                        assert(gs2[k] == gs[k]);
                    } else {
                        assert(gs2[k] == (d.0, seq![d.1]));
                        assert(values_for(prev, d.0).push(d.1) =~= seq![d.1]);
                    }
                }
                assert forall|i: int, j: int| 0 <= i < j < gs2.len() implies (#[trigger] gs2[i]).0
                    != (#[trigger] gs2[j]).0 by {
                    if j == gs.len() {
                        assert(gs2[i] == gs[i]);
                    } else {
                        assert(gs2[i] == gs[i]);
                        assert(gs2[j] == gs[j]);
                    }
                }
                assert forall|i: int| 0 <= i < ps.len() implies (#[trigger] group_position(
                    gs2,
                    ps[i].0,
                )) is Some by {
                    lemma_group_position(gs2, ps[i].0);
                    if i < ps.len() - 1 {
                        assert(ps[i] == prev[i]);
                        lemma_group_position(gs, prev[i].0);
                        let k = group_position(gs, prev[i].0).unwrap();
                        assert(gs2[k] == gs[k]);
                    } else {
                        assert(gs2[gs.len() as int].0 == ps[i].0);
                    }
                }
            },
        }
    }
}

} // verus!
