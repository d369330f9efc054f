//! A map from strings to values that remembers the order in which its keys
//! first came in.

use vstd::prelude::*;

verus! {

/// The keys of a sequence of entries, in the same order.
pub open spec fn keys_of<V>(entries: Seq<(String, V)>) -> Seq<Seq<char>> {
    Seq::new(entries.len(), |i: int| entries[i].0@)
}

/// No key occurs twice.
pub open spec fn distinct(keys: Seq<Seq<char>>) -> bool {
    forall|i: int, j: int| 0 <= i < j < keys.len() ==> keys[i] != keys[j]
}

/// The map that a sequence of entries stands for; of two entries with the
/// same key the later one counts.
pub open spec fn map_of<V>(entries: Seq<(String, V)>) -> Map<Seq<char>, V>
    decreases entries.len(),
{
    if entries.len() == 0 {
        Map::empty()
    } else {
        map_of(entries.drop_last()).insert(entries.last().0@, entries.last().1)
    }
}

/// The map of a sequence of entries holds exactly their keys, and under each
/// key, where no key occurs twice, the value that came with it.
pub proof fn lemma_map_of<V>(entries: Seq<(String, V)>)
    ensures
        forall|k: Seq<char>| #[trigger]
            map_of(entries).dom().contains(k) <==> keys_of(entries).contains(k),
        distinct(keys_of(entries)) ==> forall|i: int|
            0 <= i < entries.len() ==> map_of(entries)[#[trigger] entries[i].0@] == entries[i].1,
    decreases entries.len(),
{
    if entries.len() > 0 {
        let init = entries.drop_last();
        let last = entries.last();
        lemma_map_of(init);
        assert(keys_of(init) =~= keys_of(entries).drop_last());
        assert forall|k: Seq<char>| #[trigger]
            map_of(entries).dom().contains(k) <==> keys_of(entries).contains(k) by {
            if keys_of(entries).contains(k) {
                let i = choose|i: int| 0 <= i < keys_of(entries).len() && keys_of(entries)[i] == k;
                assert(map_of(entries) == map_of(init).insert(last.0@, last.1));
                if i < init.len() {
                    assert(keys_of(init)[i] == k);
                    assert(keys_of(init).contains(k));
                }
            }
            if map_of(entries).dom().contains(k) {
                assert(map_of(entries) == map_of(init).insert(last.0@, last.1));
                if k == last.0@ {
                    assert(keys_of(entries)[entries.len() - 1] == k);
                } else {
                    assert(map_of(init).dom().contains(k));
                    assert(keys_of(init).contains(k));
                    let i = choose|i: int| 0 <= i < keys_of(init).len() && keys_of(init)[i] == k;
                    assert(keys_of(entries)[i] == k);
                }
            }
        }
        if distinct(keys_of(entries)) {
            assert(distinct(keys_of(init))) by {
                assert forall|i: int, j: int| 0 <= i < j < keys_of(init).len() implies keys_of(
                    init,
                )[i] != keys_of(init)[j] by {
                    assert(keys_of(entries)[i] != keys_of(entries)[j]);
                }
            }
            assert forall|i: int| 0 <= i < entries.len() implies map_of(entries)[#[trigger] entries[i].0@]
                == entries[i].1 by {
                if i < init.len() {
                    assert(keys_of(entries)[i] != keys_of(entries)[entries.len() - 1]);
                    assert(init[i] == entries[i]);
                }
            }
        }
    }
}

/// Replacing the value of an entry is inserting under its key.
pub proof fn lemma_map_of_update<V>(entries: Seq<(String, V)>, i: int, key: String, value: V)
    requires
        0 <= i < entries.len(),
        entries[i].0@ == key@,
        distinct(keys_of(entries)),
    ensures
        map_of(entries.update(i, (key, value))) == map_of(entries).insert(key@, value),
        keys_of(entries.update(i, (key, value))) == keys_of(entries),
    decreases entries.len(),
{
    let updated = entries.update(i, (key, value));
    let init = entries.drop_last();
    assert(keys_of(updated) =~= keys_of(entries));
    if i == entries.len() - 1 {
        assert(updated.drop_last() =~= init);
        assert(map_of(updated) =~= map_of(entries).insert(key@, value));
    } else {
        assert(updated.drop_last() =~= init.update(i, (key, value)));
        assert(updated.last() == entries.last());
        assert(distinct(keys_of(init))) by {
            assert forall|a: int, b: int| 0 <= a < b < keys_of(init).len() implies keys_of(init)[a]
                != keys_of(init)[b] by {
                assert(keys_of(entries)[a] != keys_of(entries)[b]);
            }
        }
        assert(init[i] == entries[i]);
        lemma_map_of_update(init, i, key, value);
        assert(keys_of(entries)[i] != keys_of(entries)[entries.len() - 1]);
        assert(map_of(updated) =~= map_of(entries).insert(key@, value));
    }
}

/// A map from strings to values. Its entries keep the order in which their
/// keys first came in, and no key occurs twice.
#[derive(Debug, PartialEq, Eq)]
pub struct StringMap<V> {
    entries: Vec<(String, V)>,
}

impl<V> View for StringMap<V> {
    type V = Map<Seq<char>, V>;

    closed spec fn view(&self) -> Map<Seq<char>, V> {
        map_of(self.entries@)
    }
}

impl<V> StringMap<V> {
    #[verifier::type_invariant]
    spec fn inv(&self) -> bool {
        distinct(keys_of(self.entries@))
    }

    /// The entries, in the order in which their keys first came in.
    pub closed spec fn entries(&self) -> Seq<(String, V)> {
        self.entries@
    }

    /// The keys, in the order in which they first came in.
    pub open spec fn keys(&self) -> Seq<Seq<char>> {
        keys_of(self.entries())
    }

    /// An empty map.
    pub fn new() -> (m: StringMap<V>)
        ensures
            m.entries().len() == 0,
            m@ == Map::<Seq<char>, V>::empty(),
    {
        StringMap { entries: Vec::new() }
    }

    /// The number of entries.
    pub fn len(&self) -> (n: usize)
        ensures
            n == self.entries().len(),
    {
        self.entries.len()
    }

    /// The key of the entry at position `i`.
    pub fn key_at(&self, i: usize) -> (key: &String)
        requires
            i < self.entries().len(),
        ensures
            *key == self.entries()[i as int].0,
    {
        &self.entries[i].0
    }

    /// The value of the entry at position `i`.
    pub fn value_at(&self, i: usize) -> (value: &V)
        requires
            i < self.entries().len(),
        ensures
            *value == self.entries()[i as int].1,
    {
        &self.entries[i].1
    }

    /// The position of the entry with the key `key`.
    pub fn position(&self, key: &str) -> (at: Option<usize>)
        ensures
            distinct(self.keys()),
            self@ == map_of(self.entries()),
            match at {
                Some(i) => i < self.entries().len() && self.keys()[i as int] == key@,
                None => !self.keys().contains(key@),
            },
    {
        proof {
            use_type_invariant(self);
        }
        let wanted = key.to_owned();
        let mut i: usize = 0;
        while i < self.entries.len()
            invariant
                i <= self.entries.len(),
                wanted@ == key@,
                distinct(keys_of(self.entries@)),
                forall|j: int| 0 <= j < i ==> keys_of(self.entries@)[j] != key@,
            decreases self.entries.len() - i,
        {
            if self.entries[i].0 == wanted {
                assert(keys_of(self.entries@)[i as int] == key@);
                return Some(i);
            }
            i += 1;
        }
        None
    }

    /// Whether an entry has the key `key`.
    pub fn contains_key(&self, key: &str) -> (found: bool)
        ensures
            found == self@.dom().contains(key@),
    {
        proof {
            lemma_map_of(self.entries@);
        }
        self.position(key).is_some()
    }

    /// The value under `key`.
    pub fn get(&self, key: &str) -> (value: Option<&V>)
        ensures
            value is Some <==> self@.dom().contains(key@),
            value matches Some(v) ==> *v == self@[key@],
    {
        proof {
            lemma_map_of(self.entries@);
        }
        match self.position(key) {
            Some(i) => {
                assert(self.entries@[i as int].0@ == key@);
                Some(&self.entries[i].1)
            },
            None => None,
        }
    }

    /// Puts `value` under `key`. A key that is new goes to the end; one that
    /// is there keeps its place and gets the new value.
    pub fn insert(&mut self, key: String, value: V)
        ensures
            final(self)@ == old(self)@.insert(key@, value),
            old(self).keys().contains(key@) ==> final(self).keys() == old(self).keys(),
            !old(self).keys().contains(key@) ==> final(self).entries() == old(self).entries().push(
                (key, value),
            ),
    {
        let at = self.position(key.as_str());
        let mut entries: Vec<(String, V)> = Vec::new();
        core::mem::swap(&mut self.entries, &mut entries);
        let ghost before = entries@;
        match at {
            Some(i) => {
                proof {
                    lemma_map_of_update(before, i as int, key, value);
                }
                entries[i] = (key, value);
            },
            None => {
                proof {
                    let after = before.push((key, value));
                    assert(after.drop_last() =~= before);
                    assert(keys_of(after) =~= keys_of(before).push(key@));
                }
                entries.push((key, value));
            },
        }
        core::mem::swap(&mut self.entries, &mut entries);
    }
}

} // verus!
