//! The string-to-string mapping used for a message's metadata: an
//! insertion-ordered association list with pairwise distinct keys. Lookup is
//! modelled by `assoc_get` over the view, a sequence of key/value pairs.

use vstd::prelude::*;

use crate::assoc::assoc_get;
use crate::assoc::assoc_has;
use crate::assoc::assoc_keys_distinct;
use crate::assoc::lemma_assoc_get_first_match;
use crate::assoc::lemma_assoc_get_no_match;
use crate::assoc::lemma_assoc_get_push;

verus! {

/// A mapping from string keys to string values, holding each key at most
/// once. Entries keep their insertion order, though no operation depends
/// on it.
#[derive(Debug, Clone)]
pub struct StringMap {
    entries: Vec<(String, String)>,
}

impl View for StringMap {
    type V = Seq<(Seq<char>, Seq<char>)>;

    closed spec fn view(&self) -> Seq<(Seq<char>, Seq<char>)> {
        Seq::new(self.entries@.len(), |i: int| (self.entries@[i].0@, self.entries@[i].1@))
    }
}

/// Two association sequences whose keys agree pointwise, and whose values
/// agree wherever the key is `q`, serve `q` identically.
proof fn lemma_assoc_get_agree(
    s1: Seq<(Seq<char>, Seq<char>)>,
    s2: Seq<(Seq<char>, Seq<char>)>,
    q: Seq<char>,
)
    requires
        s1.len() == s2.len(),
        forall|i: int| 0 <= i < s1.len() ==> s1[i].0 == s2[i].0,
        forall|i: int| 0 <= i < s1.len() && s1[i].0 == q ==> s1[i].1 == s2[i].1,
    ensures
        assoc_get(s1, q) == assoc_get(s2, q),
    decreases s1.len(),
{
    if s1.len() > 0 {
        assert(s1[0].0 == s2[0].0);
        lemma_assoc_get_agree(s1.drop_first(), s2.drop_first(), q);
    }
}

impl StringMap {
    /// Distinct keys: the representation every constructor establishes and
    /// every method preserves.
    pub open spec fn wf(&self) -> bool {
        assoc_keys_distinct(self@)
    }

    /// An empty mapping.
    pub fn new() -> (r: StringMap)
        ensures
            r@ == Seq::<(Seq<char>, Seq<char>)>::empty(),
            r.wf(),
    {
        let r = StringMap { entries: Vec::new() };
        proof {
            assert(r@ =~= Seq::<(Seq<char>, Seq<char>)>::empty());
        }
        r
    }

    /// The number of entries.
    pub fn len(&self) -> (r: usize)
        ensures
            r == self@.len(),
    {
        self.entries.len()
    }

    /// Whether the mapping holds no entry.
    pub fn is_empty(&self) -> (r: bool)
        ensures
            r == (self@.len() == 0),
    {
        self.entries.len() == 0
    }

    /// The value stored under `k`, if any.
    pub fn get(&self, k: &str) -> (r: Option<&String>)
        ensures
            r matches Some(v) ==> assoc_get(self@, k@) == Some(v@),
            r is None ==> assoc_get(self@, k@) is None,
    {
        let n = self.entries.len();
        let mut i: usize = 0;
        while i < n
            invariant
                n == self@.len(),
                0 <= i <= n,
                forall|j: int| 0 <= j < i ==> self@[j].0 != k@,
            decreases n - i,
        {
            let key_string = String::from_str(k);
            if self.entries[i].0 == key_string {
                proof {
                    lemma_assoc_get_first_match(self@, k@, i as int);
                }
                return Some(&self.entries[i].1);
            }
            i += 1;
        }
        proof {
            lemma_assoc_get_no_match(self@, k@);
        }
        None
    }

    /// Stores `v` under `k`, replacing the value of an existing entry with
    /// that key, or appending a new entry.
    pub fn insert(&mut self, k: String, v: String)
        ensures
            forall|q: Seq<char>|
                assoc_get(final(self)@, q) == (if q == k@ {
                    Some(v@)
                } else {
                    assoc_get(old(self)@, q)
                }),
            final(self)@.len() == if assoc_has(old(self)@, k@) {
                old(self)@.len() as int
            } else {
                old(self)@.len() + 1 as int
            },
            old(self).wf() ==> final(self).wf(),
    {
        let ghost s0 = self@;
        let n = self.entries.len();
        let mut i: usize = 0;
        while i < n
            invariant
                self@ == s0,
                s0 == old(self)@,
                n == self@.len(),
                0 <= i <= n,
                forall|j: int| 0 <= j < i ==> self@[j].0 != k@,
            decreases n - i,
        {
            if self.entries[i].0 == k {
                let ghost kk = k@;
                let ghost vv = v@;
                proof {
                    assert(s0[i as int].0 == kk);
                    lemma_assoc_get_first_match(s0, kk, i as int);
                }
                self.entries.set(i, (k, v));
                proof {
                    let s1 = self@;
                    assert(s1 =~= s0.update(i as int, (kk, vv)));
                    assert(forall|j: int| 0 <= j < s1.len() ==> s1[j].0 == s0[j].0);
                    lemma_assoc_get_first_match(s1, kk, i as int);
                    assert(assoc_get(s1, kk) == Some(vv));
                    assert forall|q: Seq<char>| q != kk implies assoc_get(s1, q) == assoc_get(
                        s0,
                        q,
                    ) by {
                        lemma_assoc_get_agree(s1, s0, q);
                    }
                    assert(assoc_keys_distinct(s0) ==> assoc_keys_distinct(s1));
                }
                return ;
            }
            i += 1;
        }
        proof {
            lemma_assoc_get_no_match(s0, k@);
        }
        let ghost kk = k@;
        let ghost vv = v@;
        self.entries.push((k, v));
        proof {
            assert(self@ =~= s0.push((kk, vv)));
            assert forall|q: Seq<char>|
                assoc_get(self@, q) == (if q == kk {
                    Some(vv)
                } else {
                    assoc_get(s0, q)
                }) by {
                lemma_assoc_get_push(s0, (kk, vv), q);
            }
            if assoc_keys_distinct(s0) {
                assert forall|a: int, b: int| 0 <= a < b < self@.len() implies self@[a].0
                    != self@[b].0 by {
                    if b == self@.len() - 1 {
                        assert(self@[b].0 == kk);
                    }
                }
            }
        }
    }

    /// Appends an entry whose key the mapping does not hold yet.
    pub(crate) fn push_pair(&mut self, k: String, v: String)
        requires
            !assoc_has(old(self)@, k@),
        ensures
            final(self)@ == old(self)@.push((k@, v@)),
            old(self).wf() ==> final(self).wf(),
    {
        let ghost s0 = self@;
        let ghost kk = k@;
        let ghost vv = v@;
        self.entries.push((k, v));
        proof {
            assert(self@ =~= s0.push((kk, vv)));
            if assoc_keys_distinct(s0) {
                crate::assoc::lemma_assoc_none_no_match(s0, kk);
                assert forall|a: int, b: int| 0 <= a < b < self@.len() implies self@[a].0
                    != self@[b].0 by {
                    if b == self@.len() - 1 {
                        assert(self@[a].0 == s0[a].0);
                    }
                }
            }
        }
    }

    /// The entry at position `i`, in insertion order.
    pub fn pair(&self, i: usize) -> (r: (&String, &String))
        requires
            i < self@.len(),
        ensures
            r.0@ == self@[i as int].0,
            r.1@ == self@[i as int].1,
    {
        let e = &self.entries[i];
        (&e.0, &e.1)
    }

    /// A copy with the same entries.
    pub fn duplicate(&self) -> (r: StringMap)
        ensures
            r@ == self@,
    {
        let n = self.entries.len();
        let mut out: Vec<(String, String)> = Vec::new();
        let mut i: usize = 0;
        while i < n
            invariant
                n == self.entries@.len(),
                0 <= i <= n,
                out@.len() == i,
                forall|j: int| 0 <= j < i ==> out@[j] == self.entries@[j],
            decreases n - i,
        {
            let e = &self.entries[i];
            out.push((e.0.clone(), e.1.clone()));
            i += 1;
        }
        let r = StringMap { entries: out };
        proof {
            assert(r@ =~= self@);
        }
        r
    }
}

impl PartialEq for StringMap {
    /// Structural equality over the entry sequence.
    fn eq(&self, other: &StringMap) -> (r: bool) {
        let n = self.entries.len();
        if n != other.entries.len() {
            proof {
                assert(self@ != other@) by {
                    assert(self@.len() != other@.len());
                }
            }
            return false;
        }
        let mut i: usize = 0;
        while i < n
            invariant
                n == self@.len() == other@.len(),
                0 <= i <= n,
                forall|j: int| 0 <= j < i ==> self@[j] == other@[j],
            decreases n - i,
        {
            let a = &self.entries[i];
            let b = &other.entries[i];
            if !(a.0 == b.0) || !(a.1 == b.1) {
                proof {
                    assert(self@[i as int] != other@[i as int]);
                }
                return false;
            }
            i += 1;
        }
        proof {
            assert(self@ =~= other@);
        }
        true
    }
}

impl vstd::std_specs::cmp::PartialEqSpecImpl for StringMap {
    open spec fn obeys_eq_spec() -> bool {
        true
    }

    open spec fn eq_spec(&self, other: &StringMap) -> bool {
        self@ == other@
    }
}

} // verus!
