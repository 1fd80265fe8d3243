//! The flat JSON objects the wire format works with, restricted to the value
//! shapes the format uses: strings, booleans, string-to-string objects, and
//! null. An object is an insertion-ordered entry sequence with pairwise
//! distinct keys, modelled like the metadata maps by `assoc_get`.

use vstd::prelude::*;

use crate::assoc::assoc_get;
use crate::assoc::assoc_has;
use crate::assoc::assoc_keys_distinct;
use crate::assoc::lemma_assoc_get_first_match;
use crate::assoc::lemma_assoc_get_no_match;
use crate::string_map::StringMap;

verus! {

/// The ghost model of a JSON value of the wire format's subset.
#[verifier::ext_equal]
pub enum JsonValueView {
    Text(Seq<char>),
    Flag(bool),
    Table(Seq<(Seq<char>, Seq<char>)>),
    Null,
}

/// A JSON value of the subset the wire format uses: a string, a boolean, an
/// object of strings, or null.
#[derive(Debug, Clone)]
pub enum JsonValue {
    Text(String),
    Flag(bool),
    Table(StringMap),
    Null,
}

impl View for JsonValue {
    type V = JsonValueView;

    open spec fn view(&self) -> JsonValueView {
        match self {
            JsonValue::Text(s) => JsonValueView::Text(s@),
            JsonValue::Flag(b) => JsonValueView::Flag(*b),
            JsonValue::Table(m) => JsonValueView::Table(m@),
            JsonValue::Null => JsonValueView::Null,
        }
    }
}

impl JsonValue {
    /// A copy with the same view.
    pub fn duplicate(&self) -> (r: JsonValue)
        ensures
            r@ == self@,
    {
        match self {
            JsonValue::Text(s) => JsonValue::Text(s.clone()),
            JsonValue::Flag(b) => JsonValue::Flag(*b),
            JsonValue::Table(m) => JsonValue::Table(m.duplicate()),
            JsonValue::Null => JsonValue::Null,
        }
    }
}

/// Every `Table` entry of the object has pairwise distinct keys of its own.
pub open spec fn tables_distinct(s: Seq<(Seq<char>, JsonValueView)>) -> bool {
    forall|i: int|
        0 <= i < s.len() ==> (#[trigger] s[i].1 matches JsonValueView::Table(t)
            ==> assoc_keys_distinct(t))
}

/// A flat JSON object: key/value entries in insertion order, each key held
/// at most once.
#[derive(Debug, Clone)]
pub struct JsonObject {
    entries: Vec<(String, JsonValue)>,
}

impl View for JsonObject {
    type V = Seq<(Seq<char>, JsonValueView)>;

    closed spec fn view(&self) -> Seq<(Seq<char>, JsonValueView)> {
        Seq::new(self.entries@.len(), |i: int| (self.entries@[i].0@, self.entries@[i].1@))
    }
}

impl JsonObject {
    /// Distinct keys: what every constructor establishes and every method
    /// preserves.
    pub open spec fn wf(&self) -> bool {
        assoc_keys_distinct(self@)
    }

    /// An empty object.
    pub fn new() -> (r: JsonObject)
        ensures
            r@ == Seq::<(Seq<char>, JsonValueView)>::empty(),
            r.wf(),
    {
        let r = JsonObject { entries: Vec::new() };
        proof {
            assert(r@ =~= Seq::<(Seq<char>, JsonValueView)>::empty());
        }
        r
    }

    /// The number of entries.
    pub fn len(&self) -> (r: usize)
        ensures
            r == self@.len(),
    {
        self.entries.len()
    }

    /// The value stored under `k`, if any.
    pub fn get(&self, k: &str) -> (r: Option<&JsonValue>)
        ensures
            r matches Some(v) ==> assoc_get(self@, k@) == Some(v@),
            r is None ==> assoc_get(self@, k@) is None,
    {
        let n = self.entries.len();
        let mut i: usize = 0;
        while i < n
            invariant
                n == self@.len(),
                0 <= i <= n,
                forall|j: int| 0 <= j < i ==> self@[j].0 != k@,
            decreases n - i,
        {
            let key_string = String::from_str(k);
            if self.entries[i].0 == key_string {
                proof {
                    lemma_assoc_get_first_match(self@, k@, i as int);
                }
                return Some(&self.entries[i].1);
            }
            i += 1;
        }
        proof {
            lemma_assoc_get_no_match(self@, k@);
        }
        None
    }

    /// Appends an entry whose key the object does not hold yet.
    pub fn push_entry(&mut self, k: String, v: JsonValue)
        requires
            !assoc_has(old(self)@, k@),
        ensures
            final(self)@ == old(self)@.push((k@, v@)),
            old(self).wf() ==> final(self).wf(),
            forall|q: Seq<char>|
                assoc_get(final(self)@, q) == (if q == k@ {
                    Some(v@)
                } else {
                    assoc_get(old(self)@, q)
                }),
            (tables_distinct(old(self)@) && (v@ matches JsonValueView::Table(t)
                ==> assoc_keys_distinct(t))) ==> tables_distinct(final(self)@),
    {
        let ghost s0 = self@;
        let ghost kk = k@;
        let ghost vv = v@;
        self.entries.push((k, v));
        proof {
            assert(self@ =~= s0.push((kk, vv)));
            assert forall|q: Seq<char>|
                assoc_get(self@, q) == (if q == kk {
                    Some(vv)
                } else {
                    assoc_get(s0, q)
                }) by {
                crate::assoc::lemma_assoc_get_push(s0, (kk, vv), q);
            }
            if assoc_keys_distinct(s0) {
                crate::assoc::lemma_assoc_none_no_match(s0, kk);
                assert forall|a: int, b: int| 0 <= a < b < self@.len() implies self@[a].0
                    != self@[b].0 by {
                    if b == self@.len() - 1 {
                        if self@[a].0 == kk {
                            lemma_assoc_get_first_match(s0, kk, a);
                        }
                    }
                }
            }
        }
    }

    /// Stores `v` under `k`, replacing the value of an existing entry with
    /// that key, or appending a new entry.
    pub fn insert(&mut self, k: String, v: JsonValue)
        ensures
            forall|q: Seq<char>|
                assoc_get(final(self)@, q) == (if q == k@ {
                    Some(v@)
                } else {
                    assoc_get(old(self)@, q)
                }),
            old(self).wf() ==> final(self).wf(),
    {
        let ghost s0 = self@;
        let n = self.entries.len();
        let mut i: usize = 0;
        while i < n
            invariant
                self@ == s0,
                s0 == old(self)@,
                n == self@.len(),
                0 <= i <= n,
                forall|j: int| 0 <= j < i ==> self@[j].0 != k@,
            decreases n - i,
        {
            if self.entries[i].0 == k {
                let ghost kk = k@;
                let ghost vv = v@;
                proof {
                    assert(s0[i as int].0 == kk);
                    lemma_assoc_get_first_match(s0, kk, i as int);
                }
                self.entries.set(i, (k, v));
                proof {
                    let s1 = self@;
                    assert(s1 =~= s0.update(i as int, (kk, vv)));
                    assert(forall|j: int| 0 <= j < s1.len() ==> s1[j].0 == s0[j].0);
                    lemma_assoc_get_first_match(s1, kk, i as int);
                    assert forall|q: Seq<char>| q != kk implies assoc_get(s1, q) == assoc_get(
                        s0,
                        q,
                    ) by {
                        lemma_assoc_values_agree(s1, s0, q);
                    }
                    assert(assoc_keys_distinct(s0) ==> assoc_keys_distinct(s1));
                }
                return ;
            }
            i += 1;
        }
        proof {
            lemma_assoc_get_no_match(s0, k@);
        }
        let ghost kk = k@;
        let ghost vv = v@;
        self.entries.push((k, v));
        proof {
            assert(self@ =~= s0.push((kk, vv)));
            assert forall|q: Seq<char>|
                assoc_get(self@, q) == (if q == kk {
                    Some(vv)
                } else {
                    assoc_get(s0, q)
                }) by {
                crate::assoc::lemma_assoc_get_push(s0, (kk, vv), q);
            }
            if assoc_keys_distinct(s0) {
                assert forall|a: int, b: int| 0 <= a < b < self@.len() implies self@[a].0
                    != self@[b].0 by {
                    if b == self@.len() - 1 {
                        assert(self@[b].0 == kk);
                    }
                }
            }
        }
    }

    /// The entry at position `i`, in insertion order.
    pub fn entry(&self, i: usize) -> (r: (&String, &JsonValue))
        requires
            i < self@.len(),
        ensures
            r.0@ == self@[i as int].0,
            r.1@ == self@[i as int].1,
    {
        let e = &self.entries[i];
        (&e.0, &e.1)
    }
}

/// In an object whose tables are all well formed, a looked-up table is well
/// formed.
pub proof fn lemma_table_value_distinct(
    s: Seq<(Seq<char>, JsonValueView)>,
    k: Seq<char>,
    t: Seq<(Seq<char>, Seq<char>)>,
)
    requires
        tables_distinct(s),
        assoc_get(s, k) == Some(JsonValueView::Table(t)),
    ensures
        assoc_keys_distinct(t),
{
    crate::assoc::lemma_assoc_get_some_index(s, k);
    let i = choose|i: int| 0 <= i < s.len() && s[i] == (k, assoc_get(s, k)->Some_0);
    assert(s[i].1 matches JsonValueView::Table(u) ==> assoc_keys_distinct(u));
    assert(s[i].1 == JsonValueView::Table(t));
}

/// Two association sequences whose keys agree pointwise, and whose values
/// agree wherever the key is `q`, serve `q` identically.
proof fn lemma_assoc_values_agree(
    s1: Seq<(Seq<char>, JsonValueView)>,
    s2: Seq<(Seq<char>, JsonValueView)>,
    q: Seq<char>,
)
    requires
        s1.len() == s2.len(),
        forall|i: int| 0 <= i < s1.len() ==> s1[i].0 == s2[i].0,
        forall|i: int| 0 <= i < s1.len() && s1[i].0 == q ==> s1[i].1 == s2[i].1,
    ensures
        assoc_get(s1, q) == assoc_get(s2, q),
    decreases s1.len(),
{
    if s1.len() > 0 {
        assert(s1[0].0 == s2[0].0);
        lemma_assoc_values_agree(s1.drop_first(), s2.drop_first(), q);
    }
}

} // verus!
