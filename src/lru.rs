use vstd::prelude::*;

verus! {

/// Whether some entry of `s` is stored under key `k`.
pub open spec fn contains_key<R>(s: Seq<(Seq<char>, R)>, k: Seq<char>) -> bool {
    exists|i: int| 0 <= i < s.len() && #[trigger] s[i].0 == k
}

/// No two entries of `s` share a key.
pub open spec fn keys_unique<R>(s: Seq<(Seq<char>, R)>) -> bool {
    forall|i: int, j: int| 0 <= i < s.len() && 0 <= j < s.len() && i != j ==> s[i].0 != s[j].0
}

/// The entries of `v` with their keys as character sequences.
pub open spec fn keyed<V>(v: Seq<(String, V)>) -> Seq<(Seq<char>, V)> {
    v.map_values(|e: (String, V)| (e.0@, e.1))
}

/// Index of the entry of `entries` stored under `key`, if any.
pub fn key_position<V>(entries: &Vec<(String, V)>, key: &String) -> (r: Option<usize>)
    ensures
        match r {
            Some(i) => i < entries@.len() && keyed(entries@)[i as int].0 == key@,
            None => !contains_key(keyed(entries@), key@),
        },
{
    let mut i: usize = 0;
    while i < entries.len()
        invariant
            i <= entries@.len(),
            forall|j: int| 0 <= j < i ==> keyed(entries@)[j].0 != key@,
        decreases entries@.len() - i,
    {
        if entries[i].0 == *key {
            return Some(i);
        }
        i = i + 1;
    }
    None
}

/// A capacity-bounded map from string keys to values with least-recently-used
/// eviction. Entries are kept from least recently used (front) to most recently
/// used (back).
pub struct LRUCache<R> {
    capacity: usize,
    entries: Vec<(String, R)>,
}

impl<R> LRUCache<R> {
    /// The entries, least recently used first.
    pub closed spec fn entries(&self) -> Seq<(Seq<char>, R)> {
        keyed(self.entries@)
    }

    pub closed spec fn capacity(&self) -> nat {
        self.capacity as nat
    }

    pub open spec fn wf(&self) -> bool {
        &&& keys_unique(self.entries())
        &&& self.entries().len() <= self.capacity()
    }

    pub fn new(capacity: usize) -> (r: Self)
        ensures
            r.wf(),
            r.capacity() == capacity,
            r.entries() == Seq::<(Seq<char>, R)>::empty(),
    {
        let r = LRUCache { capacity, entries: Vec::new() };
        assert(r.entries() =~= Seq::<(Seq<char>, R)>::empty());
        r
    }

    pub fn len(&self) -> (r: usize)
        ensures
            r == self.entries().len(),
    {
        self.entries.len()
    }

    /// Looks `key` up; a hit becomes the most recently used entry.
    pub fn get(&mut self, key: &str) -> (r: Option<&R>)
        requires
            old(self).wf(),
        ensures
            final(self).wf(),
            final(self).capacity() == old(self).capacity(),
            contains_key(old(self).entries(), key@) <==> r is Some,
            match r {
                Some(v) => exists|i: int|
                    0 <= i < old(self).entries().len() && old(self).entries()[i].0 == key@
                        && *v == old(self).entries()[i].1 && final(self).entries()
                        == old(self).entries().remove(i).push(old(self).entries()[i]),
                None => final(self).entries() == old(self).entries(),
            },
    {
        let k = key.to_owned();
        match key_position(&self.entries, &k) {
            Some(i) => {
                let ghost before = self.entries();
                let e = self.entries.remove(i);
                self.entries.push(e);
                proof {
                    assert(self.entries() =~= before.remove(i as int).push(before[i as int]));
                    assert(keys_unique(self.entries()));
                }
                let last = self.entries.len() - 1;
                Some(&self.entries[last].1)
            },
            None => None,
        }
    }

    /// Stores `value` under `key` as the most recently used entry. An entry
    /// already under `key` is replaced; otherwise, at capacity, the least
    /// recently used entry is evicted first. A cache of capacity zero stores
    /// nothing.
    pub fn put(&mut self, key: &str, value: R)
        requires
            old(self).wf(),
        ensures
            final(self).wf(),
            final(self).capacity() == old(self).capacity(),
            ({
                let s = old(self).entries();
                let e = (key@, value);
                if contains_key(s, key@) {
                    exists|i: int| 0 <= i < s.len() && s[i].0 == key@
                        && final(self).entries() == s.remove(i).push(e)
                } else if old(self).capacity() == 0 {
                    final(self).entries() == s
                } else if s.len() == old(self).capacity() {
                    final(self).entries() == s.subrange(1, s.len() as int).push(e)
                } else {
                    final(self).entries() == s.push(e)
                }
            }),
    {
        let k = key.to_owned();
        let ghost s = self.entries();
        match key_position(&self.entries, &k) {
            Some(i) => {
                let _ = self.entries.remove(i);
                self.entries.push((k, value));
                proof {
                    assert(self.entries() =~= s.remove(i as int).push((key@, value)));
                    assert(keys_unique(self.entries()));
                }
            },
            None => {
                if self.capacity == 0 {
                    return;
                }
                if self.entries.len() == self.capacity {
                    let _ = self.entries.remove(0);
                    assert(self.entries() =~= s.subrange(1, s.len() as int));
                }
                let ghost mid = self.entries();
                self.entries.push((k, value));
                proof {
                    assert(self.entries() =~= mid.push((key@, value)));
                    assert forall|i: int| 0 <= i < mid.len() implies mid[i].0 != key@ by {
                        if s.len() == self.capacity() {
                            assert(mid[i] == s[i + 1]);
                        } else {
                            assert(mid[i] == s[i]);
                        }
                    }
                    assert(keys_unique(self.entries()));
                }
            },
        }
    }
}

} // verus!
