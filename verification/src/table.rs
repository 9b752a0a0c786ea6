//! A small table keyed by a number, which keeps its entries in the order in
//! which their keys first came in.

use vstd::prelude::*;

verus! {

/// Whether `i` is the place of the first entry under `key`.
pub open spec fn first_under<V>(entries: Seq<(u64, V)>, key: u64, i: int) -> bool {
    &&& 0 <= i < entries.len()
    &&& entries[i].0 == key
    &&& forall|j: int| 0 <= j < i ==> (#[trigger] entries[j]).0 != key
}

/// The place of the first entry under `key`, if there is one.
pub open spec fn place_of<V>(entries: Seq<(u64, V)>, key: u64) -> Option<int> {
    if exists|i: int| first_under(entries, key, i) {
        Some(choose|i: int| first_under(entries, key, i))
    } else {
        None
    }
}

/// Whether there is an entry under `key`.
pub open spec fn has_key<V>(entries: Seq<(u64, V)>, key: u64) -> bool {
    exists|i: int| 0 <= i < entries.len() && (#[trigger] entries[i]).0 == key
}

/// The value under `key`, if there is one.
pub open spec fn value_of<V>(entries: Seq<(u64, V)>, key: u64) -> Option<V> {
    match place_of(entries, key) {
        Some(i) => Some(entries[i].1),
        None => None,
    }
}

/// The entries after `value` has been put under `key`: in the place of the
/// entry that was there, or else at the end.
pub open spec fn inserted<V>(entries: Seq<(u64, V)>, key: u64, value: V) -> Seq<(u64, V)> {
    match place_of(entries, key) {
        Some(i) => entries.update(i, (key, value)),
        None => entries.push((key, value)),
    }
}

/// The entries without the first one under `key`.
pub open spec fn removed<V>(entries: Seq<(u64, V)>, key: u64) -> Seq<(u64, V)> {
    match place_of(entries, key) {
        Some(i) => entries.remove(i),
        None => entries,
    }
}

/// Whether no key stands twice.
pub open spec fn distinct_keys<V>(entries: Seq<(u64, V)>) -> bool {
    forall|i: int, j: int|
        0 <= i < j < entries.len() ==> (#[trigger] entries[i]).0 != (#[trigger] entries[j]).0
}

/// How many entries stand under `key`.
pub open spec fn count_of<V>(entries: Seq<(u64, V)>, key: u64) -> nat
    decreases entries.len(),
{
    if entries.len() == 0 {
        0
    } else {
        count_of(entries.drop_last(), key) + if entries.last().0 == key {
            1nat
        } else {
            0nat
        }
    }
}

/// There is an entry under a key exactly if the key has a first place.
pub proof fn lemma_has_key_place<V>(entries: Seq<(u64, V)>, key: u64)
    ensures
        has_key(entries, key) <==> place_of(entries, key) is Some,
        place_of(entries, key) matches Some(i) ==> first_under(entries, key, i),
    decreases entries.len(),
{
    if has_key(entries, key) {
        let i = choose|i: int| 0 <= i < entries.len() && (#[trigger] entries[i]).0 == key;
        lemma_least(entries, key, i);
    }
    if place_of(entries, key) is Some {
        let i = choose|i: int| first_under(entries, key, i);
        assert(entries[i].0 == key);
    }
}

/// Below any place where the key stands there is a first such place.
proof fn lemma_least<V>(entries: Seq<(u64, V)>, key: u64, i: int)
    requires
        0 <= i < entries.len(),
        entries[i].0 == key,
    ensures
        exists|k: int| first_under(entries, key, k),
    decreases i,
{
    if forall|j: int| 0 <= j < i ==> (#[trigger] entries[j]).0 != key {
        assert(first_under(entries, key, i));
    } else {
        let j = choose|j: int| 0 <= j < i && (#[trigger] entries[j]).0 == key;
        lemma_least(entries, key, j);
    }
}

/// Putting a value under a key keeps the keys distinct, and leaves exactly
/// one entry under that key.
pub proof fn lemma_inserted<V>(entries: Seq<(u64, V)>, key: u64, value: V)
    requires
        distinct_keys(entries),
    ensures
        distinct_keys(inserted(entries, key, value)),
        has_key(inserted(entries, key, value), key),
        value_of(inserted(entries, key, value), key) == Some(value),
        forall|other: u64|
            other != key ==> has_key(inserted(entries, key, value), other) == has_key(
                entries,
                other,
            ),
{
    lemma_has_key_place(entries, key);
    let after = inserted(entries, key, value);
    match place_of(entries, key) {
        Some(i) => {
            assert(first_under(after, key, i));
            assert(after[i].0 == key);
        },
        None => {
            let i = entries.len() as int;
            assert(after[i].0 == key);
            assert forall|j: int| 0 <= j < i implies (#[trigger] after[j]).0 != key by {
                assert(entries[j].0 == after[j].0);
            }
            assert(first_under(after, key, i));
        },
    }
    lemma_has_key_place(after, key);
    let k = place_of(after, key)->0;
    assert(first_under(after, key, k));
    assert(after[k].1 == value) by {
        match place_of(entries, key) {
            Some(i) => {
                assert(k == i);
            },
            None => {
                assert(k == entries.len());
            },
        }
    }
    assert forall|other: u64| other != key implies has_key(after, other) == has_key(
        entries,
        other,
    ) by {
        if has_key(entries, other) {
            let i = choose|i: int| 0 <= i < entries.len() && (#[trigger] entries[i]).0 == other;
            assert(after[i].0 == other);
        }
        if has_key(after, other) {
            let i = choose|i: int| 0 <= i < after.len() && (#[trigger] after[i]).0 == other;
            assert(i < entries.len());
            assert(entries[i].0 == other);
        }
    }
}

/// Among distinct keys, a key that stands somewhere stands once.
pub proof fn lemma_count_distinct<V>(entries: Seq<(u64, V)>, key: u64)
    requires
        distinct_keys(entries),
    ensures
        count_of(entries, key) == if has_key(entries, key) {
            1nat
        } else {
            0nat
        },
    decreases entries.len(),
{
    if entries.len() > 0 {
        let front = entries.drop_last();
        assert forall|i: int, j: int| 0 <= i < j < front.len() implies (#[trigger] front[i]).0 != (
        #[trigger] front[j]).0 by {
            assert(front[i] == entries[i]);
            assert(front[j] == entries[j]);
        }
        lemma_count_distinct(front, key);
        let last = entries.len() - 1;
        if entries.last().0 == key {
            assert(entries[last].0 == key);
            if has_key(front, key) {
                let i = choose|i: int| 0 <= i < front.len() && (#[trigger] front[i]).0 == key;
                assert(front[i] == entries[i]);
                assert(false);
            }
        } else {
            if has_key(entries, key) {
                let i = choose|i: int| 0 <= i < entries.len() && (#[trigger] entries[i]).0 == key;
                assert(i < last);
                assert(front[i].0 == key);
            }
            if has_key(front, key) {
                let i = choose|i: int| 0 <= i < front.len() && (#[trigger] front[i]).0 == key;
                assert(entries[i].0 == key);
            }
        }
    }
}

/// Taking a key out keeps the other keys distinct.
pub proof fn lemma_removed<V>(entries: Seq<(u64, V)>, key: u64)
    requires
        distinct_keys(entries),
    ensures
        distinct_keys(removed(entries, key)),
        !has_key(removed(entries, key), key),
        forall|other: u64|
            other != key ==> has_key(removed(entries, key), other) == has_key(entries, other),
{
    lemma_has_key_place(entries, key);
    let after = removed(entries, key);
    match place_of(entries, key) {
        Some(i) => {
            assert forall|a: int, b: int| 0 <= a < b < after.len() implies (#[trigger] after[a]).0
                != (#[trigger] after[b]).0 by {
                let a0 = if a < i {
                    a
                } else {
                    a + 1
                };
                let b0 = if b < i {
                    b
                } else {
                    b + 1
                };
                assert(after[a] == entries[a0]);
                assert(after[b] == entries[b0]);
            }
            if has_key(after, key) {
                let a = choose|a: int| 0 <= a < after.len() && (#[trigger] after[a]).0 == key;
                let a0 = if a < i {
                    a
                } else {
                    a + 1
                };
                assert(after[a] == entries[a0]);
                assert(entries[i].0 == key);
                assert(false);
            }
            assert forall|other: u64| other != key implies has_key(after, other) == has_key(
                entries,
                other,
            ) by {
                if has_key(entries, other) {
                    let a = choose|a: int|
                        0 <= a < entries.len() && (#[trigger] entries[a]).0 == other;
                    let a1 = if a < i {
                        a
                    } else {
                        a - 1
                    };
                    assert(after[a1] == entries[a]);
                }
                if has_key(after, other) {
                    let a = choose|a: int| 0 <= a < after.len() && (#[trigger] after[a]).0 == other;
                    let a0 = if a < i {
                        a
                    } else {
                        a + 1
                    };
                    assert(after[a] == entries[a0]);
                }
            }
        },
        None => {},
    }
}

/// A table keyed by a number. Under each key stands at most one value, and
/// the entries keep the order in which their keys first came in.
#[derive(Debug, Clone, PartialEq, Eq)]
pub struct Table<V> {
    pub entries: Vec<(u64, V)>,
}

impl<V: Copy> Table<V> {
    /// The entries, in order.
    pub open spec fn view(&self) -> Seq<(u64, V)> {
        self.entries@
    }

    /// No key stands twice.
    pub open spec fn wf(&self) -> bool {
        distinct_keys(self@)
    }

    /// An empty table.
    pub fn new() -> (table: Table<V>)
        ensures
            table@ == Seq::<(u64, V)>::empty(),
            table.wf(),
    {
        Table { entries: Vec::new() }
    }

    /// The number of entries.
    pub fn len(&self) -> (len: usize)
        ensures
            len == self@.len(),
    {
        self.entries.len()
    }

    /// Finds the first entry under `key`.
    pub fn position(&self, key: u64) -> (found: Option<usize>)
        ensures
            match found {
                Some(i) => place_of(self@, key) == Some(i as int) && first_under(
                    self@,
                    key,
                    i as int,
                ),
                None => place_of(self@, key) is None && !has_key(self@, key),
            },
    {
        let mut i: usize = 0;
        while i < self.entries.len()
            invariant
                i <= self.entries.len(),
                forall|j: int| 0 <= j < i ==> (#[trigger] self.entries@[j]).0 != key,
            decreases self.entries.len() - i,
        {
            if self.entries[i].0 == key {
                assert(first_under(self@, key, i as int));
                return Some(i);
            }
            i += 1;
        }
        None
    }

    /// Whether there is an entry under `key`.
    pub fn contains_key(&self, key: u64) -> (found: bool)
        ensures
            found == has_key(self@, key),
    {
        proof {
            lemma_has_key_place(self@, key);
        }
        self.position(key).is_some()
    }

    /// The value under `key`, if there is one.
    pub fn get(&self, key: u64) -> (value: Option<V>)
        ensures
            value == value_of(self@, key),
    {
        match self.position(key) {
            Some(i) => Some(self.entries[i].1),
            None => None,
        }
    }

    /// Puts `value` under `key`, in the place of the value that was there or
    /// else at the end.
    pub fn insert(&mut self, key: u64, value: V)
        ensures
            final(self)@ == inserted(old(self)@, key, value),
            old(self).wf() ==> final(self).wf(),
    {
        proof {
            if self.wf() {
                lemma_inserted(self@, key, value);
            }
        }
        match self.position(key) {
            Some(i) => {
                self.entries[i] = (key, value);
            },
            None => {
                self.entries.push((key, value));
            },
        }
    }

    /// Takes out the entry under `key`, and says whether there was one.
    pub fn remove(&mut self, key: u64) -> (was_there: bool)
        ensures
            final(self)@ == removed(old(self)@, key),
            was_there == has_key(old(self)@, key),
            old(self).wf() ==> final(self).wf(),
    {
        proof {
            lemma_has_key_place(self@, key);
            if self.wf() {
                lemma_removed(self@, key);
            }
        }
        match self.position(key) {
            Some(i) => {
                let _ = self.entries.remove(i);
                true
            },
            None => false,
        }
    }

    /// Takes every entry out, and hands them over in order.
    pub fn drain(&mut self) -> (entries: Vec<(u64, V)>)
        ensures
            entries@ == old(self)@,
            final(self)@ == Seq::<(u64, V)>::empty(),
            final(self).wf(),
    {
        let mut taken: Vec<(u64, V)> = Vec::new();
        std::mem::swap(&mut self.entries, &mut taken);
        taken
    }
}

} // verus!
