//! A small table from text keys to text values, each key at most once, kept
//! in the order in which keys were first set.
use vstd::prelude::*;
use crate::strings::str_eq;

verus! {

/// The position of the entry for `k`, or -1 when there is none.
pub open spec fn key_index(es: Seq<(Seq<char>, Seq<char>)>, k: Seq<char>) -> int
    decreases es.len(),
{
    if es.len() == 0 {
        -1
    } else if es.last().0 == k {
        es.len() - 1
    } else {
        key_index(es.drop_last(), k)
    }
}

/// The value stored under `k`.
pub open spec fn lookup(es: Seq<(Seq<char>, Seq<char>)>, k: Seq<char>) -> Option<Seq<char>> {
    let i = key_index(es, k);
    if i >= 0 {
        Some(es[i].1)
    } else {
        None
    }
}

/// The entries after setting `k` to `v`: an existing entry is changed in
/// place, a new key goes at the end.
pub open spec fn set_entry(es: Seq<(Seq<char>, Seq<char>)>, k: Seq<char>, v: Seq<char>) -> Seq<(Seq<char>, Seq<char>)> {
    let i = key_index(es, k);
    if i >= 0 {
        es.update(i, (k, v))
    } else {
        es.push((k, v))
    }
}

/// The entries after removing the entry for `k`, if any.
pub open spec fn remove_entry(es: Seq<(Seq<char>, Seq<char>)>, k: Seq<char>) -> Seq<(Seq<char>, Seq<char>)> {
    let i = key_index(es, k);
    if i >= 0 {
        es.remove(i)
    } else {
        es
    }
}

/// No key occurs twice.
pub open spec fn keys_unique(es: Seq<(Seq<char>, Seq<char>)>) -> bool {
    forall|i: int, j: int| 0 <= i < j < es.len() ==> (#[trigger] es[i]).0 != (#[trigger] es[j]).0
}

/// `key_index` finds the entry for `k`, and only misses when there is none.
pub proof fn lemma_key_index(es: Seq<(Seq<char>, Seq<char>)>, k: Seq<char>)
    ensures
        -1 <= key_index(es, k) < es.len(),
        key_index(es, k) >= 0 ==> es[key_index(es, k)].0 == k,
        key_index(es, k) == -1 <==> forall|i: int| 0 <= i < es.len() ==> (#[trigger] es[i]).0 != k,
        forall|i: int| key_index(es, k) < i < es.len() ==> (#[trigger] es[i]).0 != k,
    decreases es.len(),
{
    if es.len() > 0 {
        lemma_key_index(es.drop_last(), k);
        if es.last().0 != k {
            assert forall|i: int| 0 <= i < es.len() - 1 implies (#[trigger] es[i]).0 == es.drop_last()[i].0 by {}
        }
    }
}

/// With unique keys, the entry for `k` is the only one with that key.
pub proof fn lemma_unique_index(es: Seq<(Seq<char>, Seq<char>)>, k: Seq<char>, j: int)
    requires
        keys_unique(es),
        0 <= j < es.len(),
        es[j].0 == k,
    ensures
        key_index(es, k) == j,
{
    lemma_key_index(es, k);
}

/// Reading a key back after setting it gives the value set; other keys keep
/// their values; keys stay unique.
pub proof fn law_set_then_lookup(es: Seq<(Seq<char>, Seq<char>)>, k: Seq<char>, v: Seq<char>, other: Seq<char>)
    requires
        keys_unique(es),
    ensures
        lookup(set_entry(es, k, v), k) == Some(v),
        other != k ==> lookup(set_entry(es, k, v), other) == lookup(es, other),
        keys_unique(set_entry(es, k, v)),
{
    lemma_key_index(es, k);
    lemma_key_index(es, other);
    let s = set_entry(es, k, v);
    let i = key_index(es, k);
    if i >= 0 {
        assert(s.len() == es.len());
        assert forall|a: int, b: int| 0 <= a < b < s.len() implies (#[trigger] s[a]).0 != (#[trigger] s[b]).0 by {
            if a != i && b != i {
                assert(s[a] == es[a] && s[b] == es[b]);
            } else if a == i {
                assert(es[b].0 != es[i].0);
            } else {
                assert(es[a].0 != es[i].0);
            }
        }
        lemma_unique_index(s, k, i);
        if other != k {
            lemma_key_index(s, other);
            let j = key_index(es, other);
            if j >= 0 {
                assert(s[j] == es[j]);
                lemma_unique_index(s, other, j);
            } else {
                assert forall|x: int| 0 <= x < s.len() implies (#[trigger] s[x]).0 != other by {
                    if x != i {
                        assert(s[x] == es[x]);
                    }
                }
            }
        }
    } else {
        assert forall|a: int, b: int| 0 <= a < b < s.len() implies (#[trigger] s[a]).0 != (#[trigger] s[b]).0 by {
            if b == es.len() {
                assert(s[a] == es[a]);
            } else {
                assert(s[a] == es[a] && s[b] == es[b]);
            }
        }
        lemma_unique_index(s, k, es.len() as int);
        if other != k {
            lemma_key_index(s, other);
            let j = key_index(es, other);
            if j >= 0 {
                assert(s[j] == es[j]);
                lemma_unique_index(s, other, j);
            } else {
                assert forall|x: int| 0 <= x < s.len() implies (#[trigger] s[x]).0 != other by {
                    if x < es.len() {
                        assert(s[x] == es[x]);
                    }
                }
            }
        }
    }
}

/// After removing a key it is gone; other keys keep their values; keys stay unique.
pub proof fn law_remove_then_lookup(es: Seq<(Seq<char>, Seq<char>)>, k: Seq<char>, other: Seq<char>)
    requires
        keys_unique(es),
    ensures
        lookup(remove_entry(es, k), k) is None,
        other != k ==> lookup(remove_entry(es, k), other) == lookup(es, other),
        keys_unique(remove_entry(es, k)),
{
    lemma_key_index(es, k);
    lemma_key_index(es, other);
    let s = remove_entry(es, k);
    let i = key_index(es, k);
    if i >= 0 {
        assert forall|a: int| 0 <= a < s.len() implies (#[trigger] s[a]) == if a < i { es[a] } else { es[a + 1] } by {}
        assert forall|a: int, b: int| 0 <= a < b < s.len() implies (#[trigger] s[a]).0 != (#[trigger] s[b]).0 by {
            let a2 = if a < i { a } else { a + 1 };
            let b2 = if b < i { b } else { b + 1 };
            assert(s[a] == es[a2] && s[b] == es[b2]);
        }
        lemma_key_index(s, k);
        assert forall|x: int| 0 <= x < s.len() implies (#[trigger] s[x]).0 != k by {
            let x2 = if x < i { x } else { x + 1 };
            assert(s[x] == es[x2]);
        }
        if other != k {
            lemma_key_index(s, other);
            let j = key_index(es, other);
            if j >= 0 {
                let j2 = if j < i { j } else { j - 1 };
                assert(s[j2] == es[j]);
                lemma_unique_index(s, other, j2);
            } else {
                assert forall|x: int| 0 <= x < s.len() implies (#[trigger] s[x]).0 != other by {
                    let x2 = if x < i { x } else { x + 1 };
                    assert(s[x] == es[x2]);
                }
            }
        }
    } else {
        lemma_key_index(s, k);
    }
}

/// Text keys mapped to text values, each key at most once.
pub struct StringTable {
    entries: Vec<(String, String)>,
}

impl StringTable {
    /// The entries, in order.
    pub closed spec fn spec_entries(&self) -> Seq<(Seq<char>, Seq<char>)> {
        self.entries@.map_values(|e: (String, String)| (e.0@, e.1@))
    }

    #[verifier::type_invariant]
    closed spec fn inv(&self) -> bool {
        keys_unique(self.spec_entries())
    }

    /// An empty table.
    pub fn new() -> (r: Self)
        ensures
            r.spec_entries() == Seq::<(Seq<char>, Seq<char>)>::empty(),
            keys_unique(r.spec_entries()),
    {
        let r = StringTable { entries: Vec::new() };
        assert(r.spec_entries() =~= Seq::<(Seq<char>, Seq<char>)>::empty());
        r
    }

    /// The number of entries; no key of the table occurs twice.
    pub fn len(&self) -> (r: usize)
        ensures
            r == self.spec_entries().len(),
            keys_unique(self.spec_entries()),
    {
        proof {
            use_type_invariant(self);
        }
        self.entries.len()
    }

    fn find(&self, key: &str) -> (r: Option<usize>)
        ensures
            match r {
                Some(i) => i as int == key_index(self.spec_entries(), key@),
                None => key_index(self.spec_entries(), key@) == -1,
            },
    {
        let ghost es = self.spec_entries();
        let mut i = self.entries.len();
        assert(es.take(es.len() as int) == es);
        while i > 0
            invariant
                i <= self.entries@.len(),
                es == self.spec_entries(),
                key_index(es.take(i as int), key@) == key_index(es, key@),
            decreases i,
        {
            proof {
                assert(es.take(i as int).last() == es[i - 1]);
                assert(es.take(i as int).drop_last() == es.take(i - 1));
            }
            if str_eq(self.entries[i - 1].0.as_str(), key) {
                return Some(i - 1);
            }
            i = i - 1;
        }
        proof {
            assert(es.take(es.len() as int) == es);
        }
        None
    }

    /// The value stored under `key`; no key of the table occurs twice.
    pub fn get(&self, key: &str) -> (r: Option<String>)
        ensures
            match r {
                Some(v) => lookup(self.spec_entries(), key@) == Some(v@),
                None => lookup(self.spec_entries(), key@) is None,
            },
            keys_unique(self.spec_entries()),
    {
        proof {
            use_type_invariant(self);
            lemma_key_index(self.spec_entries(), key@);
        }
        match self.find(key) {
            Some(i) => Some(self.entries[i].1.clone()),
            None => None,
        }
    }

    /// Sets `key` to `value`.
    pub fn set(&mut self, key: String, value: String)
        ensures
            final(self).spec_entries() == set_entry(old(self).spec_entries(), key@, value@),
            keys_unique(old(self).spec_entries()),
            keys_unique(final(self).spec_entries()),
    {
        proof {
            use_type_invariant(&*self);
            lemma_key_index(self.spec_entries(), key@);
            law_set_then_lookup(self.spec_entries(), key@, value@, key@);
        }
        let ghost es = self.spec_entries();
        let ghost kv = (key@, value@);
        match self.find(key.as_str()) {
            Some(i) => {
                let mut entries: Vec<(String, String)> = Vec::new();
                std::mem::swap(&mut entries, &mut self.entries);
                entries.set(i, (key, value));
                assert(entries@.map_values(|e: (String, String)| (e.0@, e.1@)) =~= es.update(i as int, kv));
                self.entries = entries;
            },
            None => {
                let mut entries: Vec<(String, String)> = Vec::new();
                std::mem::swap(&mut entries, &mut self.entries);
                entries.push((key, value));
                assert(entries@.map_values(|e: (String, String)| (e.0@, e.1@)) =~= es.push(kv));
                self.entries = entries;
            },
        }
    }

    /// Removes the entry for `key`; whether there was one.
    pub fn remove(&mut self, key: &str) -> (r: Option<String>)
        ensures
            final(self).spec_entries() == remove_entry(old(self).spec_entries(), key@),
            keys_unique(old(self).spec_entries()),
            keys_unique(final(self).spec_entries()),
            match r {
                Some(v) => lookup(old(self).spec_entries(), key@) == Some(v@),
                None => lookup(old(self).spec_entries(), key@) is None,
            },
    {
        proof {
            use_type_invariant(&*self);
            lemma_key_index(self.spec_entries(), key@);
            law_remove_then_lookup(self.spec_entries(), key@, key@);
        }
        let ghost es = self.spec_entries();
        match self.find(key) {
            Some(i) => {
                let mut entries: Vec<(String, String)> = Vec::new();
                std::mem::swap(&mut entries, &mut self.entries);
                let (_, v) = entries.remove(i);
                assert(entries@.map_values(|e: (String, String)| (e.0@, e.1@)) =~= es.remove(i as int));
                self.entries = entries;
                Some(v)
            },
            None => None,
        }
    }

    /// Removes every entry.
    pub fn clear(&mut self)
        ensures
            final(self).spec_entries() == Seq::<(Seq<char>, Seq<char>)>::empty(),
            keys_unique(final(self).spec_entries()),
    {
        self.entries = Vec::new();
        assert(self.spec_entries() =~= Seq::<(Seq<char>, Seq<char>)>::empty());
    }

    /// The keys, in order.
    pub fn keys(&self) -> (r: Vec<String>)
        ensures
            r@.len() == self.spec_entries().len(),
            forall|i: int| 0 <= i < r@.len() ==> #[trigger] r@[i]@ == self.spec_entries()[i].0,
    {
        let mut out: Vec<String> = Vec::new();
        for i in 0..self.entries.len()
            invariant
                out@.len() == i,
                i <= self.entries@.len(),
                forall|k: int| 0 <= k < i ==> #[trigger] out@[k]@ == self.spec_entries()[k].0,
        {
            out.push(self.entries[i].0.clone());
        }
        out
    }

    /// The entry at position `i`.
    pub fn entry(&self, i: usize) -> (r: (String, String))
        requires
            i < self.spec_entries().len(),
        ensures
            (r.0@, r.1@) == self.spec_entries()[i as int],
    {
        (self.entries[i].0.clone(), self.entries[i].1.clone())
    }
}

} // verus!
