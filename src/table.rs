use vstd::prelude::*;

verus! {

/// The value stored under `key` in `entries`, where a later entry for a key
/// shadows an earlier one.
pub open spec fn lookup_in<T>(entries: Seq<(String, T)>, key: Seq<char>) -> Option<T>
    decreases entries.len(),
{
    if entries.len() == 0 {
        None
    } else if entries.last().0@ == key {
        Some(entries.last().1)
    } else {
        lookup_in(entries.drop_last(), key)
    }
}

/// Entries past `i` that do not hold `key` do not change its lookup.
proof fn lemma_skip_tail<T>(entries: Seq<(String, T)>, i: int, key: Seq<char>)
    requires
        0 <= i <= entries.len(),
        forall|j: int| i <= j < entries.len() ==> entries[j].0@ != key,
    ensures
        lookup_in(entries, key) == lookup_in(entries.take(i), key),
    decreases entries.len() - i,
{
    if i == entries.len() {
        assert(entries.take(i) =~= entries);
    } else {
        let shorter = entries.drop_last();
        lemma_skip_tail(shorter, i, key);
        assert(shorter.take(i) =~= entries.take(i));
    }
}

/// Overwriting the last entry of a key changes the lookup of that key alone.
proof fn lemma_overwrite<T>(entries: Seq<(String, T)>, i: int, entry: (String, T))
    requires
        0 <= i < entries.len(),
        entries[i].0@ == entry.0@,
        forall|j: int| i < j < entries.len() ==> entries[j].0@ != entry.0@,
    ensures
        forall|k: Seq<char>| #[trigger] lookup_in(entries.update(i, entry), k)
            == if k == entry.0@ { Some(entry.1) } else { lookup_in(entries, k) },
    decreases entries.len(),
{
    let updated = entries.update(i, entry);
    if i == entries.len() - 1 {
        assert(updated.drop_last() =~= entries.drop_last());
        assert forall|k: Seq<char>| #[trigger] lookup_in(updated, k)
            == if k == entry.0@ { Some(entry.1) } else { lookup_in(entries, k) } by {
        }
    } else {
        lemma_overwrite(entries.drop_last(), i, entry);
        assert(updated.drop_last() =~= entries.drop_last().update(i, entry));
        assert forall|k: Seq<char>| #[trigger] lookup_in(updated, k)
            == if k == entry.0@ { Some(entry.1) } else { lookup_in(entries, k) } by {
            if k != entries.last().0@ {
                assert(lookup_in(updated, k) == lookup_in(entries.drop_last().update(i, entry), k));
            }
        }
    }
}

/// A table keyed by symbol strings in which the last write for a key wins.
pub struct SymbolTable<T> {
    entries: Vec<(String, T)>,
}

impl<T: Copy> SymbolTable<T> {
    /// The value held for `key`, if any.
    pub closed spec fn lookup(&self, key: Seq<char>) -> Option<T> {
        lookup_in(self.entries@, key)
    }

    /// A table that holds no key.
    pub fn new() -> (r: SymbolTable<T>)
        ensures
            forall|k: Seq<char>| #[trigger] r.lookup(k) == None::<T>,
    {
        SymbolTable { entries: Vec::new() }
    }

    /// The index of the entry that holds `key`; no later entry holds it.
    fn position(&self, key: &String) -> (r: Option<usize>)
        ensures
            match r {
                Some(i) => {
                    &&& i < self.entries@.len()
                    &&& self.entries@[i as int].0@ == key@
                    &&& forall|j: int| i < j < self.entries@.len() ==> self.entries@[j].0@ != key@
                    &&& self.lookup(key@) == Some(self.entries@[i as int].1)
                },
                None => self.lookup(key@) == None::<T>,
            },
    {
        let mut i: usize = self.entries.len();
        while i > 0
            invariant
                i <= self.entries@.len(),
                forall|j: int| i <= j < self.entries@.len() ==> self.entries@[j].0@ != key@,
            decreases i,
        {
            i = i - 1;
            if self.entries[i].0 == *key {
                proof {
                    lemma_skip_tail(self.entries@, i + 1, key@);
                    assert(self.entries@.take(i + 1).last() == self.entries@[i as int]);
                }
                return Some(i);
            }
        }
        proof {
            lemma_skip_tail(self.entries@, 0, key@);
        }
        None
    }

    /// The value held for `key`, if any.
    pub fn get(&self, key: &String) -> (r: Option<T>)
        ensures
            r == self.lookup(key@),
    {
        match self.position(key) {
            Some(i) => Some(self.entries[i].1),
            None => None,
        }
    }

    /// Stores `value` for `key`, replacing what was held for it.
    pub fn insert(&mut self, key: &String, value: T)
        ensures
            forall|k: Seq<char>| #[trigger] final(self).lookup(k)
                == if k == key@ { Some(value) } else { old(self).lookup(k) },
    {
        let entry = (key.clone(), value);
        match self.position(key) {
            Some(i) => {
                proof {
                    lemma_overwrite(self.entries@, i as int, entry);
                }
                self.entries.set(i, entry);
            },
            None => {
                self.entries.push(entry);
                proof {
                    assert(self.entries@.drop_last() =~= old(self).entries@);
                }
            },
        }
    }
}

} // verus!
