use vstd::prelude::*;

verus! {

/// Last-write-wins lookup in an association list.
pub open spec fn assoc_get<K, V>(s: Seq<(K, V)>, k: K) -> Option<V>
    decreases s.len(),
{
    if s.len() == 0 {
        None
    } else if s.last().0 == k {
        Some(s.last().1)
    } else {
        assoc_get(s.drop_last(), k)
    }
}

/// No key occurs twice.
pub open spec fn distinct_keys<K, V>(s: Seq<(K, V)>) -> bool {
    forall|i: int, j: int| 0 <= i < j < s.len() ==> s[i].0 != s[j].0
}

/// With distinct keys, the entry at any index is the one the lookup finds.
pub proof fn lemma_assoc_get_index<K, V>(s: Seq<(K, V)>, i: int)
    requires
        distinct_keys(s),
        0 <= i < s.len(),
    ensures
        assoc_get(s, s[i].0) == Some(s[i].1),
    decreases s.len(),
{
    if i < s.len() - 1 {
        assert(s.last().0 != s[i].0);
        assert(distinct_keys(s.drop_last()));
        lemma_assoc_get_index(s.drop_last(), i);
    }
}

/// A key that occurs at no index is not found.
pub proof fn lemma_assoc_get_absent<K, V>(s: Seq<(K, V)>, k: K)
    requires
        forall|i: int| 0 <= i < s.len() ==> s[i].0 != k,
    ensures
        assoc_get(s, k) is None,
    decreases s.len(),
{
    if s.len() > 0 {
        lemma_assoc_get_absent(s.drop_last(), k);
    }
}

/// Overwriting the entry that holds a key rebinds that key and nothing else.
pub proof fn lemma_assoc_get_update<K, V>(s: Seq<(K, V)>, i: int, k: K, v: V)
    requires
        distinct_keys(s),
        0 <= i < s.len(),
        s[i].0 == k,
    ensures
        distinct_keys(s.update(i, (k, v))),
        assoc_get(s.update(i, (k, v)), k) == Some(v),
        forall|k2: K| k2 != k ==> assoc_get(s.update(i, (k, v)), k2) == assoc_get(s, k2),
    decreases s.len(),
{
    let t = s.update(i, (k, v));
    assert(forall|j: int| 0 <= j < s.len() ==> t[j].0 == s[j].0);
    if i == s.len() - 1 {
        assert(t.drop_last() =~= s.drop_last());
        assert(t.last() == (k, v));
        assert(s.last().0 == k);
        assert forall|k2: K| k2 != k implies assoc_get(t, k2) == assoc_get(s, k2) by {
            assert(assoc_get(t, k2) == assoc_get(t.drop_last(), k2));
            assert(assoc_get(s, k2) == assoc_get(s.drop_last(), k2));
        }
    } else {
        assert(t.drop_last() =~= s.drop_last().update(i, (k, v)));
        assert(distinct_keys(s.drop_last()));
        lemma_assoc_get_update(s.drop_last(), i, k, v);
        assert(t.last() == s.last());
        assert(s.last().0 != k);
        assert forall|k2: K| k2 != k implies assoc_get(t, k2) == assoc_get(s, k2) by {
            if s.last().0 == k2 {
                assert(assoc_get(t, k2) == Some(t.last().1));
                assert(assoc_get(s, k2) == Some(s.last().1));
            } else {
                assert(assoc_get(t, k2) == assoc_get(t.drop_last(), k2));
                assert(assoc_get(s, k2) == assoc_get(s.drop_last(), k2));
                assert(assoc_get(s.drop_last().update(i, (k, v)), k2) == assoc_get(
                    s.drop_last(),
                    k2,
                ));
            }
        }
    }
}

/// Appending a fresh key binds that key and nothing else.
pub proof fn lemma_assoc_get_push<K, V>(s: Seq<(K, V)>, k: K, v: V)
    ensures
        assoc_get(s.push((k, v)), k) == Some(v),
        forall|k2: K| k2 != k ==> assoc_get(s.push((k, v)), k2) == assoc_get(s, k2),
{
    assert(s.push((k, v)).drop_last() =~= s);
    assert(s.push((k, v)).last() == (k, v));
}

/// Appending a key that occurs at no index keeps the keys distinct.
pub proof fn lemma_distinct_push<K, V>(s: Seq<(K, V)>, k: K, v: V)
    requires
        distinct_keys(s),
        forall|i: int| 0 <= i < s.len() ==> s[i].0 != k,
    ensures
        distinct_keys(s.push((k, v))),
{
}

/// Membership in a sequence after a push: the old members plus the new one.
pub proof fn lemma_contains_push<T>(s: Seq<T>, x: T)
    ensures
        forall|y: T| #[trigger] s.push(x).contains(y) <==> (s.contains(y) || y == x),
{
    assert forall|y: T| #[trigger] s.push(x).contains(y) implies (s.contains(y) || y == x) by {
        if y != x {
            let i = choose|i: int| 0 <= i < s.push(x).len() && s.push(x)[i] == y;
            assert(s[i] == y);
        }
    }
    assert forall|y: T| (s.contains(y) || y == x) implies #[trigger] s.push(x).contains(y) by {
        if y == x {
            assert(s.push(x)[s.len() as int] == y);
        } else {
            let i = choose|i: int| 0 <= i < s.len() && s[i] == y;
            assert(s.push(x)[i] == y);
        }
    }
}

} // verus!
