//! First-match lookup over association sequences, and the lemmas that relate
//! it to index-wise reasoning. The role, attribute and configuration tables
//! are all association lists; their accessors are proved against these.

use vstd::prelude::*;

verus! {

/// The value bound to the first occurrence of `k`, if any.
pub open spec fn assoc_lookup<K, V>(s: Seq<(K, V)>, k: K) -> Option<V>
    decreases s.len(),
{
    if s.len() == 0 {
        Option::None
    } else if s[0].0 == k {
        Option::Some(s[0].1)
    } else {
        assoc_lookup(s.drop_first(), k)
    }
}

/// No two bindings share a key.
pub open spec fn keys_unique<K, V>(s: Seq<(K, V)>) -> bool {
    forall|i: int, j: int| 0 <= i < j < s.len() ==> s[i].0 != s[j].0
}

/// A key bound nowhere looks up to nothing.
pub proof fn lemma_lookup_absent<K, V>(s: Seq<(K, V)>, k: K)
    requires
        forall|i: int| 0 <= i < s.len() ==> s[i].0 != k,
    ensures
        assoc_lookup(s, k) is None,
    decreases s.len(),
{
    if s.len() > 0 {
        assert(s[0].0 != k);
        assert(forall|i: int| 0 <= i < s.drop_first().len() ==> s.drop_first()[i] == s[i + 1]);
        lemma_lookup_absent(s.drop_first(), k);
    }
}

/// A key first bound at index `i` looks up to that binding's value.
pub proof fn lemma_lookup_at<K, V>(s: Seq<(K, V)>, k: K, i: int)
    requires
        0 <= i < s.len(),
        s[i].0 == k,
        forall|j: int| 0 <= j < i ==> s[j].0 != k,
    ensures
        assoc_lookup(s, k) == Option::Some(s[i].1),
    decreases i,
{
    if i == 0 {
    } else {
        assert(s[0].0 != k);
        assert(forall|j: int| 0 <= j < s.drop_first().len() ==> s.drop_first()[j] == s[j + 1]);
        lemma_lookup_at(s.drop_first(), k, i - 1);
    }
}

/// A key looks up to something exactly when some binding carries it.
pub proof fn lemma_lookup_exists<K, V>(s: Seq<(K, V)>, k: K)
    ensures
        (assoc_lookup(s, k) is Some) <==> exists|i: int| 0 <= i < s.len() && s[i].0 == k,
    decreases s.len(),
{
    if s.len() > 0 && s[0].0 != k {
        lemma_lookup_exists(s.drop_first(), k);
        assert(forall|i: int| 0 <= i < s.drop_first().len() ==> s.drop_first()[i] == s[i + 1]);
        if exists|i: int| 0 <= i < s.len() && s[i].0 == k {
            let i = choose|i: int| 0 <= i < s.len() && s[i].0 == k;
            assert(s.drop_first()[i - 1].0 == k);
        }
    }
}

/// Rewriting the first binding of `k` in place changes that key's value and
/// no other key's.
pub proof fn lemma_lookup_update<K, V>(s: Seq<(K, V)>, i: int, k: K, v: V, k2: K)
    requires
        0 <= i < s.len(),
        s[i].0 == k,
        forall|j: int| 0 <= j < i ==> s[j].0 != k,
    ensures
        assoc_lookup(s.update(i, (k, v)), k) == Option::Some(v),
        k2 != k ==> assoc_lookup(s.update(i, (k, v)), k2) == assoc_lookup(s, k2),
    decreases s.len(),
{
    let t = s.update(i, (k, v));
    if i == 0 {
        assert(t[0] == (k, v));
        if k2 != k {
            assert(t.drop_first() =~= s.drop_first());
        }
    } else {
        assert(t[0] == s[0]);
        assert(s[0].0 != k);
        assert(forall|j: int| 0 <= j < s.drop_first().len() ==> s.drop_first()[j] == s[j + 1]);
        assert(t.drop_first() =~= s.drop_first().update(i - 1, (k, v)));
        lemma_lookup_update(s.drop_first(), i - 1, k, v, k2);
    }
}

/// Appending a binding for a fresh key gives that key its value and leaves
/// every other key's lookup as it was.
pub proof fn lemma_lookup_push<K, V>(s: Seq<(K, V)>, k: K, v: V, k2: K)
    requires
        forall|i: int| 0 <= i < s.len() ==> s[i].0 != k,
    ensures
        assoc_lookup(s.push((k, v)), k) == Option::Some(v),
        k2 != k ==> assoc_lookup(s.push((k, v)), k2) == assoc_lookup(s, k2),
    decreases s.len(),
{
    let t = s.push((k, v));
    if s.len() == 0 {
        assert(t[0] == (k, v));
        if k2 != k {
            assert(t.drop_first() =~= Seq::<(K, V)>::empty().push((k, v)).drop_first());
            assert(t.drop_first().len() == 0);
        }
    } else {
        assert(t[0] == s[0]);
        assert(s[0].0 != k);
        assert(forall|j: int| 0 <= j < s.drop_first().len() ==> s.drop_first()[j] == s[j + 1]);
        assert(t.drop_first() =~= s.drop_first().push((k, v)));
        lemma_lookup_push(s.drop_first(), k, v, k2);
    }
}

} // verus!
