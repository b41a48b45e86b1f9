//! A small map from token text to a single-precision number, used for the
//! top-candidate log-probabilities of a generated token and for token biases.

use crate::fp::Fp32;
use vstd::prelude::*;

verus! {

/// The value bound to `key` in a sequence of entries: that of the first entry
/// whose key is `key`.
pub open spec fn lookup(entries: Seq<(String, Fp32)>, key: Seq<char>) -> Option<Fp32>
    decreases entries.len(),
{
    if entries.len() == 0 {
        None
    } else if entries[0].0@ == key {
        Some(entries[0].1)
    } else {
        lookup(entries.skip(1), key)
    }
}

/// No two entries share a key.
pub open spec fn keys_distinct(entries: Seq<(String, Fp32)>) -> bool {
    forall|i: int, j: int|
        0 <= i < entries.len() && 0 <= j < entries.len() && i != j ==> #[trigger] entries[i].0@
            != #[trigger] entries[j].0@
}

/// With `entries[i]` keyed by `key`, and no earlier entry keyed so, the
/// lookup gives that entry's value; with no entry keyed by `key` it gives none.
proof fn lemma_lookup_index(entries: Seq<(String, Fp32)>, key: Seq<char>)
    ensures
        forall|i: int|
            0 <= i < entries.len() && entries[i].0@ == key && (forall|j: int|
                0 <= j < i ==> entries[j].0@ != key) ==> lookup(entries, key) == Some(
                entries[i].1,
            ),
        (forall|j: int| 0 <= j < entries.len() ==> entries[j].0@ != key) ==> lookup(entries, key)
            is None,
    decreases entries.len(),
{
    if entries.len() > 0 {
        let rest = entries.skip(1);
        lemma_lookup_index(rest, key);
        assert forall|i: int|
            0 <= i < entries.len() && entries[i].0@ == key && (forall|j: int|
                0 <= j < i ==> entries[j].0@ != key) implies lookup(entries, key) == Some(
            entries[i].1,
        ) by {
            if i > 0 {
                assert(entries[0].0@ != key);
                assert(rest[i - 1] == entries[i]);
                assert forall|j: int| 0 <= j < i - 1 implies rest[j].0@ != key by {
                    assert(rest[j] == entries[j + 1]);
                }
            }
        }
        if forall|j: int| 0 <= j < entries.len() ==> entries[j].0@ != key {
            assert(entries[0].0@ != key);
            assert forall|j: int| 0 <= j < rest.len() implies rest[j].0@ != key by {
                assert(rest[j] == entries[j + 1]);
            }
        }
    }
}

/// A map from token text to a number, kept as a list of entries with
/// distinct keys.
#[derive(Clone, Debug)]
pub struct TokenMap {
    entries: Vec<(String, Fp32)>,
}

impl TokenMap {
    pub closed spec fn entries_spec(&self) -> Seq<(String, Fp32)> {
        self.entries@
    }

    pub closed spec fn wf(&self) -> bool {
        keys_distinct(self.entries@)
    }

    /// The value bound to `key`, if any.
    pub closed spec fn get_spec(&self, key: Seq<char>) -> Option<Fp32> {
        lookup(self.entries@, key)
    }

    /// The number of keys bound.
    pub closed spec fn len_spec(&self) -> nat {
        self.entries@.len()
    }

    pub fn new() -> (r: TokenMap)
        ensures
            r.wf(),
            r.len_spec() == 0,
            forall|k: Seq<char>| r.get_spec(k) is None,
    {
        TokenMap { entries: Vec::new() }
    }

    fn find(&self, key: &str) -> (r: Option<usize>)
        ensures
            match r {
                Some(i) => i < self.entries@.len() && self.entries@[i as int].0@ == key@ && (forall|
                    j: int,
                | 0 <= j < i ==> self.entries@[j].0@ != key@),
                None => forall|j: int|
                    0 <= j < self.entries@.len() ==> self.entries@[j].0@ != key@,
            },
    {
        let wanted = String::from_str(key);
        let mut i: usize = 0;
        while i < self.entries.len()
            invariant
                i <= self.entries@.len(),
                wanted@ == key@,
                forall|j: int| 0 <= j < i ==> self.entries@[j].0@ != key@,
            decreases self.entries@.len() - i,
        {
            if self.entries[i].0 == wanted {
                return Some(i);
            }
            i = i + 1;
        }
        None
    }

    /// The value bound to `key`, if any.
    pub fn get(&self, key: &str) -> (r: Option<Fp32>)
        ensures
            r == self.get_spec(key@),
    {
        proof {
            lemma_lookup_index(self.entries@, key@);
        }
        match self.find(key) {
            Some(i) => Some(self.entries[i].1),
            None => None,
        }
    }

    /// The entries, each key once, in the order the keys were first bound.
    pub fn entries(&self) -> (r: &Vec<(String, Fp32)>)
        requires
            self.wf(),
        ensures
            r@ == self.entries_spec(),
            r@.len() == self.len_spec(),
            forall|i: int| 0 <= i < r@.len() ==> self.get_spec(#[trigger] r@[i].0@) == Some(r@[i].1),
            forall|k: Seq<char>|
                #[trigger] self.get_spec(k) is Some ==> exists|i: int| 0 <= i < r@.len() && r@[i].0@ == k,
    {
        let entries = &self.entries;
        proof {
            assert forall|i: int| 0 <= i < entries@.len() implies self.get_spec(
                #[trigger] entries@[i].0@,
            ) == Some(entries@[i].1) by {
                lemma_lookup_index(entries@, entries@[i].0@);
                assert forall|j: int| 0 <= j < i implies entries@[j].0@ != entries@[i].0@ by {
                    assert(keys_distinct(entries@));
                }
            }
            assert forall|k: Seq<char>| #[trigger] self.get_spec(k) is Some implies exists|i: int|
                0 <= i < entries@.len() && entries@[i].0@ == k by {
                lemma_lookup_index(entries@, k);
            }
        }
        entries
    }

    /// The number of keys bound.
    pub fn len(&self) -> (r: usize)
        ensures
            r == self.len_spec(),
    {
        self.entries.len()
    }

    /// Binds `key` to `value`, replacing the value it had.
    pub fn insert(&mut self, key: String, value: Fp32)
        requires
            old(self).wf(),
        ensures
            final(self).wf(),
            final(self).get_spec(key@) == Some(value),
            forall|k: Seq<char>| k != key@ ==> final(self).get_spec(k) == old(self).get_spec(k),
            old(self).get_spec(key@) is Some ==> final(self).len_spec() == old(self).len_spec(),
            old(self).get_spec(key@) is None ==> final(self).len_spec() == old(self).len_spec() + 1,
    {
        let ghost before = self.entries@;
        proof {
            lemma_lookup_index(before, key@);
        }
        let ghost key_view = key@;
        match self.find(key.as_str()) {
            Some(i) => {
                self.entries.set(i, (key, value));
                proof {
                    let after = self.entries@;
                    assert forall|j: int| 0 <= j < i implies after[j].0@ != key_view by {
                        assert(after[j] == before[j]);
                    }
                    lemma_lookup_index(after, key_view);
                    assert(after[i as int].0@ == key_view);
                    assert(lookup(after, key_view) == Some(after[i as int].1));
                }
            },
            None => {
                self.entries.push((key, value));
                proof {
                    let after = self.entries@;
                    let i = after.len() - 1;
                    assert forall|j: int| 0 <= j < i implies after[j].0@ != key_view by {
                        assert(after[j] == before[j]);
                    }
                    lemma_lookup_index(after, key_view);
                    assert(after[i].0@ == key_view);
                    assert(lookup(after, key_view) == Some(after[i].1));
                }
            },
        }
        let ghost after = self.entries@;
        proof {
            assert forall|k: Seq<char>| k != key@ implies lookup(after, k) == lookup(before, k) by {
                lemma_lookup_index(before, k);
                lemma_lookup_index(after, k);
                if exists|i: int| 0 <= i < before.len() && before[i].0@ == k {
                    let i = choose|i: int| 0 <= i < before.len() && before[i].0@ == k;
                    assert(after[i] == before[i]);
                    assert forall|j: int| 0 <= j < i implies before[j].0@ != k by {
                        assert(before[i].0@ == k);
                    }
                    assert forall|j: int| 0 <= j < i implies after[j].0@ != k by {
                        if after[j] != before[j] {
                            assert(after[j].0@ == key@);
                        }
                    }
                } else {
                    assert forall|j: int| 0 <= j < after.len() implies after[j].0@ != k by {
                        if j < before.len() && after[j] == before[j] {
                        } else {
                            assert(after[j].0@ == key@);
                        }
                    }
                }
            }
        }
    }
}

} // verus!
