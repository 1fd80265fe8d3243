//! Association sequences: the mathematical model shared by the string-to-string
//! metadata maps and the flat JSON objects of the wire format. A value is a
//! sequence of key/value pairs; lookup finds the first pair with a matching key,
//! and a well-formed sequence has pairwise distinct keys.

use vstd::prelude::*;

verus! {

/// Pairwise distinct keys.
pub open spec fn assoc_keys_distinct<V>(s: Seq<(Seq<char>, V)>) -> bool {
    forall|i: int, j: int| 0 <= i < j < s.len() ==> s[i].0 != s[j].0
}

/// The value of the first pair whose key is `k`, if any.
pub open spec fn assoc_get<V>(s: Seq<(Seq<char>, V)>, k: Seq<char>) -> Option<V>
    decreases s.len(),
{
    if s.len() == 0 {
        None
    } else if s[0].0 == k {
        Some(s[0].1)
    } else {
        assoc_get(s.drop_first(), k)
    }
}

/// Whether some pair has key `k`.
pub open spec fn assoc_has<V>(s: Seq<(Seq<char>, V)>, k: Seq<char>) -> bool {
    assoc_get(s, k) is Some
}

/// Appending a pair leaves earlier keys' lookups unchanged and serves `k`
/// only where no earlier pair did.
pub proof fn lemma_assoc_get_push<V>(s: Seq<(Seq<char>, V)>, p: (Seq<char>, V), k: Seq<char>)
    ensures
        assoc_get(s.push(p), k) == (if assoc_get(s, k) is Some {
            assoc_get(s, k)
        } else if p.0 == k {
            Some(p.1)
        } else {
            None::<V>
        }),
    decreases s.len(),
{
    let t = s.push(p);
    assert(t.len() == s.len() + 1);
    if s.len() == 0 {
        assert(t[0] == p);
        assert(t.drop_first() =~= Seq::<(Seq<char>, V)>::empty());
        assert(assoc_get(t.drop_first(), k) is None);
        if p.0 == k {
            assert(assoc_get(t, k) == Some(p.1));
        } else {
            assert(assoc_get(t, k) is None);
        }
    } else {
        assert(t[0] == s[0]);
        assert(t.drop_first() =~= s.drop_first().push(p));
        lemma_assoc_get_push(s.drop_first(), p, k);
        if s[0].0 == k {
            assert(assoc_get(t, k) == Some(s[0].1));
            assert(assoc_get(s, k) == Some(s[0].1));
        } else {
            assert(assoc_get(t, k) == assoc_get(t.drop_first(), k));
            assert(assoc_get(s, k) == assoc_get(s.drop_first(), k));
        }
    }
}

/// A key matched at `i`, with no earlier match, is the key's lookup result.
pub proof fn lemma_assoc_get_first_match<V>(s: Seq<(Seq<char>, V)>, k: Seq<char>, i: int)
    requires
        0 <= i < s.len(),
        s[i].0 == k,
        forall|j: int| 0 <= j < i ==> s[j].0 != k,
    ensures
        assoc_get(s, k) == Some(s[i].1),
    decreases s.len(),
{
    if i > 0 {
        lemma_assoc_get_first_match(s.drop_first(), k, i - 1);
    }
}

/// A key that no pair holds has no lookup result.
pub proof fn lemma_assoc_get_no_match<V>(s: Seq<(Seq<char>, V)>, k: Seq<char>)
    requires
        forall|j: int| 0 <= j < s.len() ==> s[j].0 != k,
    ensures
        assoc_get(s, k) is None,
    decreases s.len(),
{
    if s.len() > 0 {
        lemma_assoc_get_no_match(s.drop_first(), k);
    }
}

/// Lookup in a concatenation asks the left side first.
pub proof fn lemma_assoc_get_concat<V>(a: Seq<(Seq<char>, V)>, b: Seq<(Seq<char>, V)>, k: Seq<char>)
    ensures
        assoc_get(a + b, k) == (if assoc_get(a, k) is Some {
            assoc_get(a, k)
        } else {
            assoc_get(b, k)
        }),
    decreases a.len(),
{
    if a.len() == 0 {
        assert(a + b =~= b);
    } else {
        assert((a + b)[0] == a[0]);
        assert((a + b).drop_first() =~= a.drop_first() + b);
        lemma_assoc_get_concat(a.drop_first(), b, k);
    }
}

/// A key without a lookup result matches no pair.
pub proof fn lemma_assoc_none_no_match<V>(s: Seq<(Seq<char>, V)>, k: Seq<char>)
    requires
        assoc_get(s, k) is None,
    ensures
        forall|j: int| 0 <= j < s.len() ==> s[j].0 != k,
    decreases s.len(),
{
    if s.len() > 0 {
        lemma_assoc_none_no_match(s.drop_first(), k);
        assert forall|j: int| 0 <= j < s.len() implies s[j].0 != k by {
            if j > 0 {
                assert(s.drop_first()[j - 1].0 != k);
            }
        }
    }
}

/// A successful lookup names some pair of the sequence.
pub proof fn lemma_assoc_get_some_index<V>(s: Seq<(Seq<char>, V)>, k: Seq<char>)
    requires
        assoc_get(s, k) is Some,
    ensures
        exists|i: int| 0 <= i < s.len() && s[i] == (k, assoc_get(s, k)->Some_0),
    decreases s.len(),
{
    if s[0].0 == k {
        assert(s[0] == (k, assoc_get(s, k)->Some_0));
    } else {
        lemma_assoc_get_some_index(s.drop_first(), k);
        let i = choose|i: int|
            0 <= i < s.drop_first().len() && s.drop_first()[i] == (
            k,
            assoc_get(s.drop_first(), k)->Some_0,
            );
        assert(s[i + 1] == (k, assoc_get(s, k)->Some_0));
    }
}

} // verus!
