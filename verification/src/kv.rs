//! Association-list reasoning shared by the cache's two key spaces: a
//! first-match lookup function over a sequence of string-keyed pairs, and
//! the lemmas that say how it behaves under push and remove when keys are
//! unique.

use vstd::prelude::*;

verus! {

/// First-match lookup of `k` among the pairs of `s`.
pub open spec fn assoc<V>(s: Seq<(String, V)>, k: Seq<char>) -> Option<V>
    decreases s.len(),
{
    if s.len() == 0 {
        None
    } else if s[0].0@ == k {
        Some(s[0].1)
    } else {
        assoc(s.drop_first(), k)
    }
}

/// No two pairs of `s` share a key.
pub open spec fn keys_unique<V>(s: Seq<(String, V)>) -> bool {
    forall|i: int, j: int| 0 <= i < j < s.len() ==> s[i].0@ != s[j].0@
}

/// A first match at index `i` is what lookup returns.
pub proof fn lemma_assoc_at<V>(s: Seq<(String, V)>, k: Seq<char>, i: int)
    requires
        0 <= i < s.len(),
        s[i].0@ == k,
        forall|j: int| 0 <= j < i ==> s[j].0@ != k,
    ensures
        assoc(s, k) == Some(s[i].1),
    decreases i,
{
    if i == 0 {
    } else {
        assert(forall|j: int| 0 <= j < i - 1 ==> s.drop_first()[j].0@ == s[j + 1].0@);
        lemma_assoc_at(s.drop_first(), k, i - 1);
    }
}

/// A key no pair carries is not found.
pub proof fn lemma_assoc_none<V>(s: Seq<(String, V)>, k: Seq<char>)
    requires
        forall|j: int| 0 <= j < s.len() ==> s[j].0@ != k,
    ensures
        assoc(s, k) == None::<V>,
    decreases s.len(),
{
    if s.len() > 0 {
        lemma_assoc_none(s.drop_first(), k);
    }
}

/// A found key is carried by some pair.
pub proof fn lemma_assoc_mem<V>(s: Seq<(String, V)>, k: Seq<char>)
    requires
        assoc(s, k) is Some,
    ensures
        exists|j: int| 0 <= j < s.len() && s[j].0@ == k && s[j].1 == assoc(s, k)->Some_0,
    decreases s.len(),
{
    if s.len() > 0 && s[0].0@ != k {
        lemma_assoc_mem(s.drop_first(), k);
        let j = choose|j: int|
            0 <= j < s.drop_first().len() && s.drop_first()[j].0@ == k && s.drop_first()[j].1
                == assoc(s.drop_first(), k)->Some_0;
        assert(s[j + 1].0@ == k && s[j + 1].1 == assoc(s, k)->Some_0);
    }
}

/// Appending a pair under a fresh key adds exactly that binding.
pub proof fn lemma_assoc_push<V>(s: Seq<(String, V)>, k0: String, v: V, k: Seq<char>)
    requires
        forall|j: int| 0 <= j < s.len() ==> s[j].0@ != k0@,
    ensures
        assoc(s.push((k0, v)), k) == if k == k0@ {
            Some(v)
        } else {
            assoc(s, k)
        },
    decreases s.len(),
{
    if s.len() == 0 {
        assert(s.push((k0, v))[0] == (k0, v));
        if k != k0@ {
            assert(s.push((k0, v)).drop_first() =~= Seq::<(String, V)>::empty());
        }
    } else {
        assert(s.push((k0, v))[0] == s[0]);
        lemma_assoc_push(s.drop_first(), k0, v, k);
        assert(s.push((k0, v)).drop_first() =~= s.drop_first().push((k0, v)));
    }
}

/// Removing the pair at `i` deletes its key and nothing else.
pub proof fn lemma_assoc_remove<V>(s: Seq<(String, V)>, i: int, k: Seq<char>)
    requires
        keys_unique(s),
        0 <= i < s.len(),
    ensures
        assoc(s.remove(i), k) == if k == s[i].0@ {
            None::<V>
        } else {
            assoc(s, k)
        },
    decreases i,
{
    if i == 0 {
        assert(s.remove(0) =~= s.drop_first());
        if k == s[0].0@ {
            assert(forall|j: int| 0 <= j < s.drop_first().len() ==> s.drop_first()[j].0@ != k);
            lemma_assoc_none(s.drop_first(), k);
        }
    } else {
        assert(s.remove(i)[0] == s[0]);
        assert(s.remove(i).drop_first() =~= s.drop_first().remove(i - 1));
        assert(keys_unique(s.drop_first())) by {
            assert(forall|m: int, j: int|
                0 <= m < j < s.drop_first().len() ==> s.drop_first()[m].0@ == s[m + 1].0@
                    && s.drop_first()[j].0@ == s[j + 1].0@);
        }
        lemma_assoc_remove(s.drop_first(), i - 1, k);
        assert(s.drop_first()[i - 1] == s[i]);
    }
}

/// Removal keeps keys unique.
pub proof fn lemma_unique_remove<V>(s: Seq<(String, V)>, i: int)
    requires
        keys_unique(s),
        0 <= i < s.len(),
    ensures
        keys_unique(s.remove(i)),
{
    assert forall|m: int, j: int|
        0 <= m < j < s.remove(i).len() implies s.remove(i)[m].0@ != s.remove(i)[j].0@ by {
        let m0 = if m < i {
            m
        } else {
            m + 1
        };
        let j0 = if j < i {
            j
        } else {
            j + 1
        };
        assert(s.remove(i)[m] == s[m0] && s.remove(i)[j] == s[j0]);
    }
}

/// Appending under a fresh key keeps keys unique.
pub proof fn lemma_unique_push<V>(s: Seq<(String, V)>, k0: String, v: V)
    requires
        keys_unique(s),
        forall|j: int| 0 <= j < s.len() ==> s[j].0@ != k0@,
    ensures
        keys_unique(s.push((k0, v))),
{
    assert forall|m: int, j: int|
        0 <= m < j < s.push((k0, v)).len() implies s.push((k0, v))[m].0@ != s.push(
        (k0, v),
    )[j].0@ by {
        if j < s.len() {
            assert(s.push((k0, v))[m] == s[m] && s.push((k0, v))[j] == s[j]);
        } else {
            assert(s.push((k0, v))[m] == s[m] && s.push((k0, v))[j] == (k0, v));
        }
    }
}

} // verus!
