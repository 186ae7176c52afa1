//! The mathematical model shared by the name-keyed stores: a sequence of
//! key/value pairs denotes a map, with a later pair overriding an earlier
//! one of the same key.

use vstd::prelude::*;

verus! {

/// The mapping that a sequence of key/value pairs denotes; a later pair
/// overrides an earlier one with the same key.
pub open spec fn map_of<V>(s: Seq<(Seq<char>, V)>) -> Map<Seq<char>, V>
    decreases s.len(),
{
    if s.len() == 0 {
        Map::empty()
    } else {
        map_of(s.drop_last()).insert(s.last().0, s.last().1)
    }
}

/// No two pairs of the sequence share a key.
pub open spec fn keys_unique<V>(s: Seq<(Seq<char>, V)>) -> bool {
    forall|i: int, j: int| 0 <= i < j < s.len() ==> s[i].0 != s[j].0
}

/// A key is in the denoted map exactly when some pair of the sequence
/// carries it.
pub proof fn lemma_map_of_domain<V>(s: Seq<(Seq<char>, V)>, k: Seq<char>)
    ensures
        map_of(s).contains_key(k) <==> exists|i: int| 0 <= i < s.len() && s[i].0 == k,
    decreases s.len(),
{
    if s.len() == 0 {
    } else {
        let pre = s.drop_last();
        lemma_map_of_domain(pre, k);
        if s.last().0 == k {
            assert(s[s.len() - 1].0 == k);
        } else {
            if map_of(s).contains_key(k) {
                let i = choose|i: int| 0 <= i < pre.len() && pre[i].0 == k;
                assert(s[i].0 == k);
            }
            if exists|i: int| 0 <= i < s.len() && s[i].0 == k {
                let i = choose|i: int| 0 <= i < s.len() && s[i].0 == k;
                assert(pre[i].0 == k);
            }
        }
    }
}

/// With unique keys, the pair at any index gives the denoted map's value
/// at its key.
pub proof fn lemma_map_of_index<V>(s: Seq<(Seq<char>, V)>, i: int)
    requires
        keys_unique(s),
        0 <= i < s.len(),
    ensures
        map_of(s).contains_key(s[i].0),
        map_of(s)[s[i].0] == s[i].1,
    decreases s.len(),
{
    let pre = s.drop_last();
    if i == s.len() - 1 {
    } else {
        assert forall|a: int, b: int| 0 <= a < b < pre.len() implies pre[a].0 != pre[b].0 by {
            assert(pre[a] == s[a]);
            assert(pre[b] == s[b]);
        }
        lemma_map_of_index(pre, i);
        assert(s[i].0 != s[s.len() - 1].0);
        assert(pre[i] == s[i]);
    }
}

/// Appending a pair inserts its key into the denoted map.
pub proof fn lemma_map_of_push<V>(s: Seq<(Seq<char>, V)>, k: Seq<char>, v: V)
    ensures
        map_of(s.push((k, v))) == map_of(s).insert(k, v),
{
    let t = s.push((k, v));
    assert(t.drop_last() =~= s);
    assert(t.last() == (k, v));
}

/// Replacing the value of the pair at an index, keeping its key, inserts
/// at that key.
pub proof fn lemma_map_of_update<V>(s: Seq<(Seq<char>, V)>, i: int, v: V)
    requires
        keys_unique(s),
        0 <= i < s.len(),
    ensures
        map_of(s.update(i, (s[i].0, v))) == map_of(s).insert(s[i].0, v),
    decreases s.len(),
{
    let t = s.update(i, (s[i].0, v));
    let pre = s.drop_last();
    if i == s.len() - 1 {
        assert(t.drop_last() =~= pre);
        assert(t.last() == (s[i].0, v));
        assert(map_of(pre).insert(s[i].0, s[i].1).insert(s[i].0, v) =~= map_of(pre).insert(
            s[i].0,
            v,
        ));
    } else {
        assert forall|a: int, b: int| 0 <= a < b < pre.len() implies pre[a].0 != pre[b].0 by {
            assert(pre[a] == s[a]);
            assert(pre[b] == s[b]);
        }
        assert(pre[i] == s[i]);
        lemma_map_of_update(pre, i, v);
        assert(t.drop_last() =~= pre.update(i, (s[i].0, v)));
        assert(t.last() == s.last());
        assert(s[i].0 != s.last().0);
        assert(map_of(pre).insert(s[i].0, v).insert(s.last().0, s.last().1) =~= map_of(
            pre,
        ).insert(s.last().0, s.last().1).insert(s[i].0, v));
    }
}

} // verus!
