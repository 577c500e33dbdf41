//! An associative registry from text keys to integer values, kept as a
//! vector of entries with pairwise-distinct keys. Its abstract contents
//! are a finite map from key characters to values; the entry vector also
//! gives the pairs a definite insertion order for iteration, though no
//! caller may rely on any particular order.

use vstd::prelude::*;

verus! {

/// The map described by a sequence of entries, later entries winning.
pub open spec fn entries_map(entries: Seq<(String, i64)>) -> Map<Seq<char>, i64>
    decreases entries.len(),
{
    if entries.len() == 0 {
        Map::empty()
    } else {
        entries_map(entries.drop_last()).insert(entries.last().0@, entries.last().1)
    }
}

/// Whether the keys of a sequence of entries are pairwise distinct.
pub open spec fn keys_distinct(entries: Seq<(String, i64)>) -> bool {
    forall|a: int, b: int|
        0 <= a < b < entries.len() ==> (#[trigger] entries[a]).0@ != (#[trigger] entries[b]).0@
}

/// Pairwise-distinct keys survive dropping the last entry.
proof fn lemma_keys_distinct_drop_last(entries: Seq<(String, i64)>)
    requires
        entries.len() > 0,
        keys_distinct(entries),
    ensures
        keys_distinct(entries.drop_last()),
{
    assert(forall|a: int, b: int|
        0 <= a < b < entries.drop_last().len() ==> (#[trigger] entries.drop_last()[a]) == entries[a]
            && (#[trigger] entries.drop_last()[b]) == entries[b]);
}

/// A key occurs in the described map exactly when some entry carries it.
proof fn lemma_entries_map_dom(entries: Seq<(String, i64)>, k: Seq<char>)
    ensures
        entries_map(entries).contains_key(k) <==> exists|i: int|
            0 <= i < entries.len() && (#[trigger] entries[i]).0@ == k,
    decreases entries.len(),
{
    if entries.len() > 0 {
        lemma_entries_map_dom(entries.drop_last(), k);
        if entries.last().0@ == k {
            assert((#[trigger] entries[entries.len() - 1]).0@ == k);
        } else {
            if exists|i: int| 0 <= i < entries.len() && (#[trigger] entries[i]).0@ == k {
                let i = choose|i: int| 0 <= i < entries.len() && (#[trigger] entries[i]).0@ == k;
                assert(entries.drop_last()[i] == entries[i]);
            }
            if exists|i: int|
                0 <= i < entries.drop_last().len() && (#[trigger] entries.drop_last()[i]).0@ == k {
                let i = choose|i: int|
                    0 <= i < entries.drop_last().len() && (#[trigger] entries.drop_last()[i]).0@
                        == k;
                assert(entries[i] == entries.drop_last()[i]);
            }
        }
    }
}

/// With pairwise-distinct keys, each entry's key maps to that entry's value.
proof fn lemma_entries_map_value(entries: Seq<(String, i64)>, i: int)
    requires
        0 <= i < entries.len(),
        keys_distinct(entries),
    ensures
        entries_map(entries).contains_key(entries[i].0@),
        entries_map(entries)[entries[i].0@] == entries[i].1,
    decreases entries.len(),
{
    if i == entries.len() - 1 {
        assert(entries.last() == entries[i]);
    } else {
        lemma_keys_distinct_drop_last(entries);
        assert(entries.drop_last()[i] == entries[i]);
        lemma_entries_map_value(entries.drop_last(), i);
        assert(entries.last().0@ != entries[i].0@);
    }
}

/// With pairwise-distinct keys, the described map has one key per entry.
proof fn lemma_entries_map_len(entries: Seq<(String, i64)>)
    requires
        keys_distinct(entries),
    ensures
        entries_map(entries).dom().finite(),
        entries_map(entries).len() == entries.len(),
    decreases entries.len(),
{
    broadcast use vstd::set::axiom_set_insert_len;
    broadcast use vstd::set::axiom_set_insert_finite;
    broadcast use vstd::set::axiom_set_empty_len;

    if entries.len() > 0 {
        lemma_keys_distinct_drop_last(entries);
        lemma_entries_map_len(entries.drop_last());
        lemma_entries_map_dom(entries.drop_last(), entries.last().0@);
        assert(forall|j: int|
            0 <= j < entries.drop_last().len() ==> (#[trigger] entries.drop_last()[j])
                == entries[j]);
        assert(!entries_map(entries.drop_last()).contains_key(entries.last().0@));
    }
}

/// Appending an entry inserts its key into the described map.
proof fn lemma_entries_map_push(entries: Seq<(String, i64)>, p: (String, i64))
    ensures
        entries_map(entries.push(p)) == entries_map(entries).insert(p.0@, p.1),
{
    assert(entries.push(p).drop_last() =~= entries);
    assert(entries.push(p).last() == p);
}

/// Replacing the entry that carries a key overwrites that key's value.
proof fn lemma_entries_map_update(entries: Seq<(String, i64)>, i: int, p: (String, i64))
    requires
        0 <= i < entries.len(),
        keys_distinct(entries),
        entries[i].0@ == p.0@,
    ensures
        entries_map(entries.update(i, p)) == entries_map(entries).insert(p.0@, p.1),
    decreases entries.len(),
{
    let updated = entries.update(i, p);
    if i == entries.len() - 1 {
        assert(updated.drop_last() =~= entries.drop_last());
        assert(updated.last() == p);
        assert(entries_map(entries.drop_last()).insert(entries.last().0@, entries.last().1).insert(
            p.0@,
            p.1,
        ) =~= entries_map(entries.drop_last()).insert(p.0@, p.1));
    } else {
        lemma_keys_distinct_drop_last(entries);
        assert(entries.drop_last()[i] == entries[i]);
        lemma_entries_map_update(entries.drop_last(), i, p);
        assert(updated.drop_last() =~= entries.drop_last().update(i, p));
        assert(updated.last() == entries.last());
        assert(entries.last().0@ != p.0@);
        assert(entries_map(entries.drop_last()).insert(p.0@, p.1).insert(
            entries.last().0@,
            entries.last().1,
        ) =~= entries_map(entries.drop_last()).insert(entries.last().0@, entries.last().1).insert(
            p.0@,
            p.1,
        ));
    }
}

/// An associative registry with pairwise-distinct text keys.
pub struct Registry {
    entries: Vec<(String, i64)>,
}

impl View for Registry {
    type V = Map<Seq<char>, i64>;

    closed spec fn view(&self) -> Map<Seq<char>, i64> {
        entries_map(self.entries@)
    }
}

impl Registry {
    /// Well-formedness: no two entries carry the same key. Constructors
    /// establish it and every method preserves it.
    pub closed spec fn wf(&self) -> bool {
        keys_distinct(self.entries@)
    }

    /// Creates an empty registry.
    pub fn new() -> (out: Registry)
        ensures
            out.wf(),
            out@ == Map::<Seq<char>, i64>::empty(),
    {
        Registry { entries: Vec::new() }
    }

    /// The index of the entry carrying `key`, if any.
    fn position_of(&self, key: &String) -> (out: Option<usize>)
        ensures
            match out {
                Some(i) => i < self.entries@.len() && self.entries@[i as int].0@ == key@,
                None => forall|i: int|
                    0 <= i < self.entries@.len() ==> (#[trigger] self.entries@[i]).0@ != key@,
            },
    {
        let mut idx: usize = 0;
        while idx < self.entries.len()
            invariant
                idx <= self.entries@.len(),
                forall|i: int| 0 <= i < idx ==> (#[trigger] self.entries@[i]).0@ != key@,
            decreases self.entries@.len() - idx,
        {
            if self.entries[idx].0 == *key {
                return Some(idx);
            }
            idx = idx + 1;
        }
        None
    }

    /// Binds `key` to `value`: a fresh key is appended, an existing key
    /// has its value overwritten.
    pub fn insert(&mut self, key: String, value: i64)
        requires
            old(self).wf(),
        ensures
            final(self).wf(),
            final(self)@ == old(self)@.insert(key@, value),
    {
        let ghost old_entries = self.entries@;
        match self.position_of(&key) {
            Some(i) => {
                self.entries.remove(i);
                self.entries.insert(i, (key, value));
                proof {
                    assert(self.entries@ =~= old_entries.update(
                        i as int,
                        self.entries@[i as int],
                    ));
                    lemma_entries_map_update(old_entries, i as int, self.entries@[i as int]);
                }
            },
            None => {
                self.entries.push((key, value));
                proof {
                    assert(self.entries@ =~= old_entries.push(self.entries@[
                        self.entries@.len() - 1
                    ]));
                    lemma_entries_map_push(old_entries, self.entries@[self.entries@.len() - 1]);
                }
            },
        }
    }

    /// The value bound to `key`, or `None` where no entry carries it.
    pub fn get(&self, key: &String) -> (out: Option<i64>)
        requires
            self.wf(),
        ensures
            match out {
                Some(v) => self@.contains_key(key@) && self@[key@] == v,
                None => !self@.contains_key(key@),
            },
    {
        match self.position_of(key) {
            Some(i) => {
                proof {
                    lemma_entries_map_value(self.entries@, i as int);
                }
                Some(self.entries[i].1)
            },
            None => {
                proof {
                    lemma_entries_map_dom(self.entries@, key@);
                }
                None
            },
        }
    }

    /// How many keys the registry holds.
    pub fn len(&self) -> (out: usize)
        requires
            self.wf(),
        ensures
            out == self@.len(),
    {
        proof {
            lemma_entries_map_len(self.entries@);
        }
        self.entries.len()
    }

    /// All entries, for iteration: one pair per key of the contents, each
    /// bound as in the contents, with pairwise-distinct keys. The order is
    /// an implementation detail that no caller may rely on.
    pub fn pairs(&self) -> (out: &Vec<(String, i64)>)
        requires
            self.wf(),
        ensures
            out@.len() == self@.len(),
            forall|i: int|
                0 <= i < out@.len() ==> self@.contains_key((#[trigger] out@[i]).0@) && self@[out@[
                    i
                ].0@] == out@[i].1,
            forall|a: int, b: int|
                0 <= a < b < out@.len() ==> (#[trigger] out@[a]).0@ != (#[trigger] out@[b]).0@,
            forall|k: Seq<char>|
                #[trigger] self@.contains_key(k) ==> exists|i: int|
                    0 <= i < out@.len() && (#[trigger] out@[i]).0@ == k,
    {
        proof {
            lemma_entries_map_len(self.entries@);
            assert forall|i: int| 0 <= i < self.entries@.len() implies self@.contains_key(
                (#[trigger] self.entries@[i]).0@,
            ) && self@[self.entries@[i].0@] == self.entries@[i].1 by {
                lemma_entries_map_value(self.entries@, i);
            }
            assert forall|k: Seq<char>| #[trigger] self@.contains_key(k) implies exists|i: int|
                0 <= i < self.entries@.len() && (#[trigger] self.entries@[i]).0@ == k by {
                lemma_entries_map_dom(self.entries@, k);
            }
        }
        &self.entries
    }
}

} // verus!
