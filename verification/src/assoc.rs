use vstd::prelude::*;

verus! {

/// The map denoted by a sequence of key-value pairs, later pairs
/// overriding earlier ones.
pub open spec fn assoc_map<V>(s: Seq<(u64, V)>) -> Map<u64, V>
    decreases s.len(),
{
    if s.len() == 0 {
        Map::empty()
    } else {
        assoc_map(s.drop_last()).insert(s.last().0, s.last().1)
    }
}

/// No key occurs twice in the pair sequence.
pub open spec fn keys_unique<V>(s: Seq<(u64, V)>) -> bool {
    forall|i: int, j: int| 0 <= i < j < s.len() ==> (#[trigger] s[i]).0 != (#[trigger] s[j]).0
}

/// A key is in the denoted map exactly when some pair carries it.
pub proof fn lemma_assoc_map_dom<V>(s: Seq<(u64, V)>)
    ensures
        forall|k: u64|
            assoc_map(s).dom().contains(k) <==> exists|i: int|
                0 <= i < s.len() && (#[trigger] s[i]).0 == k,
    decreases s.len(),
{
    if s.len() > 0 {
        lemma_assoc_map_dom(s.drop_last());
        assert forall|k: u64|
            assoc_map(s).dom().contains(k) <==> exists|i: int|
                0 <= i < s.len() && (#[trigger] s[i]).0 == k by {
            if assoc_map(s).dom().contains(k) {
                if k == s.last().0 {
                    assert(s[s.len() - 1].0 == k);
                } else {
                    assert(assoc_map(s.drop_last()).dom().contains(k));
                    assert(exists|i: int|
                        0 <= i < s.drop_last().len() && (#[trigger] s.drop_last()[i]).0 == k);
                    let i = choose|i: int|
                        0 <= i < s.drop_last().len() && (#[trigger] s.drop_last()[i]).0 == k;
                    assert(s.drop_last()[i] == s[i]);
                    assert(s[i].0 == k);
                }
            }
            if exists|i: int| 0 <= i < s.len() && (#[trigger] s[i]).0 == k {
                let i = choose|i: int| 0 <= i < s.len() && (#[trigger] s[i]).0 == k;
                if i < s.len() - 1 {
                    assert(s.drop_last()[i] == s[i]);
                    assert(s.drop_last()[i].0 == k);
                    assert(exists|w: int|
                        0 <= w < s.drop_last().len() && (#[trigger] s.drop_last()[w]).0 == k);
                    assert(assoc_map(s.drop_last()).dom().contains(k));
                    assert(assoc_map(s).dom().contains(k));
                } else {
                    assert(k == s.last().0);
                    assert(assoc_map(s).dom().contains(k));
                }
            }
        }
    }
}

/// With unique keys, the denoted map sends each pair's key to that pair's
/// value.
pub proof fn lemma_assoc_map_at<V>(s: Seq<(u64, V)>, j: int)
    requires
        keys_unique(s),
        0 <= j < s.len(),
    ensures
        assoc_map(s).dom().contains(s[j].0),
        assoc_map(s)[s[j].0] == s[j].1,
    decreases s.len(),
{
    if j < s.len() - 1 {
        assert(keys_unique(s.drop_last())) by {
            assert(forall|a: int, b: int|
                0 <= a < b < s.drop_last().len() ==> (#[trigger] s.drop_last()[a]).0 != (
                #[trigger] s.drop_last()[b]).0) by {
                assert(forall|a: int|
                    0 <= a < s.drop_last().len() ==> #[trigger] s.drop_last()[a] == s[a]);
            }
        }
        lemma_assoc_map_at(s.drop_last(), j);
        assert(s.drop_last()[j] == s[j]);
        assert(s[j].0 != s.last().0);
    }
}

/// Replacing the value of the pair at `j` (keeping its key) denotes the
/// same map as inserting that value under that key.
pub proof fn lemma_assoc_map_update<V>(s: Seq<(u64, V)>, j: int, v: V)
    requires
        keys_unique(s),
        0 <= j < s.len(),
    ensures
        assoc_map(s.update(j, (s[j].0, v))) =~= assoc_map(s).insert(s[j].0, v),
        keys_unique(s.update(j, (s[j].0, v))),
    decreases s.len(),
{
    let t = s.update(j, (s[j].0, v));
    assert(forall|a: int| 0 <= a < s.len() && a != j ==> #[trigger] t[a] == s[a]);
    assert(t[j].0 == s[j].0);
    assert(keys_unique(t));
    if j == s.len() - 1 {
        assert(t.drop_last() =~= s.drop_last());
        assert(t.last() == (s[j].0, v));
    } else {
        assert(t.drop_last() =~= s.drop_last().update(j, (s[j].0, v)));
        assert(keys_unique(s.drop_last())) by {
            assert(forall|a: int|
                0 <= a < s.drop_last().len() ==> #[trigger] s.drop_last()[a] == s[a]);
        }
        assert(s.drop_last()[j] == s[j]);
        lemma_assoc_map_update(s.drop_last(), j, v);
        assert(s[j].0 != s.last().0);
        assert(t.last() == s.last());
    }
}

/// Appending a pair with a fresh key denotes inserting it.
pub proof fn lemma_assoc_map_push<V>(s: Seq<(u64, V)>, k: u64, v: V)
    ensures
        assoc_map(s.push((k, v))) == assoc_map(s).insert(k, v),
        keys_unique(s) && (forall|i: int| 0 <= i < s.len() ==> (#[trigger] s[i]).0 != k)
            ==> keys_unique(s.push((k, v))),
{
    assert(s.push((k, v)).drop_last() =~= s);
    assert(s.push((k, v)).last() == (k, v));
    if keys_unique(s) && (forall|i: int| 0 <= i < s.len() ==> (#[trigger] s[i]).0 != k) {
        let t = s.push((k, v));
        assert(forall|a: int| 0 <= a < s.len() ==> #[trigger] t[a] == s[a]);
        assert(keys_unique(t));
    }
}

} // verus!
