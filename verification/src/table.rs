//! A table from texts to values in which no text occurs twice.

use crate::text::same_text;
use std::sync::Arc;
use vstd::prelude::*;

verus! {

/// The values of a table, each under its own text. Entries keep the order in which they
/// came.
#[derive(Debug)]
pub struct Table<V> {
    entries: Vec<(Arc<str>, V)>,
}

spec fn key_at<V>(entries: Seq<(Arc<str>, V)>, i: int) -> Seq<char> {
    entries[i].0@
}

spec fn stands_at<V>(entries: Seq<(Arc<str>, V)>, key: Seq<char>, i: int) -> bool {
    0 <= i < entries.len() && key_at(entries, i) == key
}

spec fn distinct<V>(entries: Seq<(Arc<str>, V)>) -> bool {
    forall|i: int, j: int|
        0 <= i < j < entries.len() ==> #[trigger] key_at(entries, i) != #[trigger] key_at(
            entries,
            j,
        )
}

spec fn contents<V>(entries: Seq<(Arc<str>, V)>) -> Map<Seq<char>, V> {
    Map::new(
        |key: Seq<char>| exists|i: int| stands_at(entries, key, i),
        |key: Seq<char>| entries[choose|i: int| stands_at(entries, key, i)].1,
    )
}

proof fn lemma_contents<V>(entries: Seq<(Arc<str>, V)>, i: int)
    requires
        distinct(entries),
        0 <= i < entries.len(),
    ensures
        contents(entries).contains_key(key_at(entries, i)),
        contents(entries)[key_at(entries, i)] == entries[i].1,
{
    let key = key_at(entries, i);
    assert(stands_at(entries, key, i));
    let j = choose|j: int| stands_at(entries, key, j);
    assert(stands_at(entries, key, j));
    assert(i == j);
}

impl<V> View for Table<V> {
    type V = Map<Seq<char>, V>;

    closed spec fn view(&self) -> Map<Seq<char>, V> {
        contents(self.entries@)
    }
}

impl<V> Table<V> {
    #[verifier::type_invariant]
    spec fn well_formed(self) -> bool {
        distinct(self.entries@)
    }

    /// The texts of the table, in the order in which they came.
    pub closed spec fn keys(self) -> Seq<Seq<char>> {
        keys_of(self.entries@)
    }

    /// An empty table.
    pub fn new() -> (table: Self)
        ensures
            table@ == Map::<Seq<char>, V>::empty(),
            table.keys() == Seq::<Seq<char>>::empty(),
    {
        let table = Table { entries: Vec::new() };
        assert(table@ =~= Map::<Seq<char>, V>::empty());
        assert(table.keys() =~= Seq::<Seq<char>>::empty());
        table
    }

    fn position(&self, key: &str) -> (position: Option<usize>)
        ensures
            match position {
                Some(i) => stands_at(self.entries@, key@, i as int),
                None => !self@.contains_key(key@),
            },
    {
        let mut i: usize = 0;
        while i < self.entries.len()
            invariant
                i <= self.entries@.len(),
                forall|j: int| 0 <= j < i ==> #[trigger] key_at(self.entries@, j) != key@,
            decreases self.entries@.len() - i,
        {
            if same_text(&*self.entries[i].0, key) {
                return Some(i);
            }
            i = i + 1;
        }
        None
    }

    /// How many texts the table has.
    pub fn len(&self) -> (len: usize)
        ensures
            len == self.keys().len(),
            self.keys().no_duplicates(),
            self@.dom() == self.keys().to_set(),
    {
        proof {
            use_type_invariant(self);
            let keys = self.keys();
            assert(keys.no_duplicates()) by {
                assert forall|i: int, j: int|
                    0 <= i < keys.len() && 0 <= j < keys.len() && i != j implies keys[i]
                    != keys[j] by {
                    assert(keys[i] == key_at(self.entries@, i));
                    assert(keys[j] == key_at(self.entries@, j));
                }
            }
            assert forall|key: Seq<char>| self@.dom().contains(key) implies keys.to_set().contains(
                key,
            ) by {
                let i = choose|i: int| stands_at(self.entries@, key, i);
                assert(keys[i] == key);
            }
            assert forall|key: Seq<char>| keys.to_set().contains(key) implies self@.dom().contains(
                key,
            ) by {
                let i = choose|i: int| 0 <= i < keys.len() && keys[i] == key;
                assert(stands_at(self.entries@, key, i));
            }
            assert(self@.dom() =~= keys.to_set());
        }
        self.entries.len()
    }

    /// The entry at a position.
    pub fn entry(&self, i: usize) -> (entry: (&Arc<str>, &V))
        requires
            i < self.keys().len(),
        ensures
            entry.0@ == self.keys()[i as int],
            self@.contains_key(entry.0@),
            *entry.1 == self@[entry.0@],
    {
        proof {
            use_type_invariant(self);
            lemma_contents(self.entries@, i as int);
        }
        let entry = &self.entries[i];
        (&entry.0, &entry.1)
    }

    /// Whether there is a value under a text.
    pub fn contains_key(&self, key: &str) -> (found: bool)
        ensures
            found == self@.contains_key(key@),
    {
        self.position(key).is_some()
    }

    /// The value under a text.
    pub fn get(&self, key: &str) -> (value: Option<&V>)
        ensures
            match value {
                Some(v) => self@.contains_key(key@) && *v == self@[key@],
                None => !self@.contains_key(key@),
            },
    {
        proof {
            use_type_invariant(self);
        }
        match self.position(key) {
            Some(i) => {
                proof {
                    lemma_contents(self.entries@, i as int);
                }
                Some(&self.entries[i].1)
            },
            None => None,
        }
    }

    /// Puts a value under a text that has none; a value that is there stays.
    pub fn or_insert(&mut self, key: Arc<str>, value: V)
        ensures
            final(self)@ == if old(self)@.contains_key(key@) {
                old(self)@
            } else {
                old(self)@.insert(key@, value)
            },
            final(self).keys() == if old(self)@.contains_key(key@) {
                old(self).keys()
            } else {
                old(self).keys().push(key@)
            },
    {
        proof {
            use_type_invariant(&*self);
        }
        match self.position(&*key) {
            Some(_) => {},
            None => {
                let ghost before = self.entries@;
                let ghost name = key@;
                let mut entries: Vec<(Arc<str>, V)> = Vec::new();
                std::mem::swap(&mut entries, &mut self.entries);
                entries.push((key, value));
                proof {
                    lemma_push(before, key, value);
                }
                self.entries = entries;
                assert(self.keys() =~= old(self).keys().push(name)) by {
                    assert forall|i: int| 0 <= i < before.len() implies #[trigger] key_at(
                        entries@,
                        i,
                    ) == key_at(before, i) by {}
                }
            },
        }
    }

    /// Puts a value under a text, in place of the one that was there. The text comes last.
    pub fn insert(&mut self, key: Arc<str>, value: V)
        ensures
            final(self)@ == old(self)@.insert(key@, value),
            final(self).keys() == old(self).keys().remove_value(key@).push(key@),
    {
        self.remove(&*key);
        self.or_insert(key, value);
        assert(old(self)@.remove(key@).insert(key@, value) =~= old(self)@.insert(key@, value));
    }

    /// Takes the value under a text away.
    pub fn remove(&mut self, key: &str)
        ensures
            final(self)@ == old(self)@.remove(key@),
            final(self).keys() == old(self).keys().remove_value(key@),
    {
        proof {
            use_type_invariant(&*self);
            self.keys().index_of_first_ensures(key@);
        }
        match self.position(key) {
            Some(i) => {
                let ghost before = self.entries@;
                let mut entries: Vec<(Arc<str>, V)> = Vec::new();
                std::mem::swap(&mut entries, &mut self.entries);
                let _ = entries.remove(i);
                proof {
                    lemma_remove(before, i as int);
                }
                self.entries = entries;
                proof {
                    lemma_key_position(before, i as int);
                    assert(self.keys() =~= old(self).keys().remove(i as int));
                }
            },
            None => {
                assert(old(self)@ =~= old(self)@.remove(key@));
                proof {
                    lemma_keys(self.entries@, key@);
                }
            },
        }
    }
}

spec fn keys_of<V>(entries: Seq<(Arc<str>, V)>) -> Seq<Seq<char>> {
    Seq::new(entries.len(), |i: int| key_at(entries, i))
}

/// Each text stands at one position only.
proof fn lemma_key_position<V>(entries: Seq<(Arc<str>, V)>, i: int)
    requires
        distinct(entries),
        0 <= i < entries.len(),
    ensures
        keys_of(entries).index_of_first(key_at(entries, i)) == Some(i),
{
    let keys = keys_of(entries);
    let key = key_at(entries, i);
    keys.index_of_first_ensures(key);
    assert(keys[i] == key);
    let j = keys.index_of_first(key)->0;
    assert(key_at(entries, j) == key);
}

/// A text that has no value is none of the texts.
proof fn lemma_keys<V>(entries: Seq<(Arc<str>, V)>, key: Seq<char>)
    requires
        !contents(entries).contains_key(key),
    ensures
        !keys_of(entries).contains(key),
{
    let keys = keys_of(entries);
    if keys.contains(key) {
        let i = choose|i: int| 0 <= i < keys.len() && keys[i] == key;
        assert(stands_at(entries, key, i));
    }
}

proof fn lemma_push<V>(entries: Seq<(Arc<str>, V)>, key: Arc<str>, value: V)
    requires
        distinct(entries),
        !contents(entries).contains_key(key@),
    ensures
        distinct(entries.push((key, value))),
        contents(entries.push((key, value))) == contents(entries).insert(key@, value),
{
    let after = entries.push((key, value));
    let n = entries.len() as int;
    assert forall|i: int| 0 <= i < n implies #[trigger] key_at(after, i) == key_at(entries, i)
        && key_at(entries, i) != key@ by {
        lemma_contents(entries, i);
    }
    assert(key_at(after, n) == key@);
    assert(distinct(after));
    assert forall|k: Seq<char>|
        contents(after).contains_key(k) == contents(entries).insert(key@, value).contains_key(
            k,
        ) by {
        if contents(after).contains_key(k) {
            let i = choose|i: int| stands_at(after, k, i);
            if i < n {
                assert(stands_at(entries, k, i));
            }
        }
        if contents(entries).contains_key(k) {
            let i = choose|i: int| stands_at(entries, k, i);
            assert(stands_at(after, k, i));
        }
        assert(stands_at(after, key@, n));
    }
    assert forall|k: Seq<char>| contents(after).contains_key(k) implies contents(after)[k]
        == contents(entries).insert(key@, value)[k] by {
        let i = choose|i: int| stands_at(after, k, i);
        assert(stands_at(after, k, i));
        lemma_contents(after, i);
        if i < n {
            lemma_contents(entries, i);
        }
    }
    assert(contents(after) =~= contents(entries).insert(key@, value));
}

proof fn lemma_remove<V>(entries: Seq<(Arc<str>, V)>, p: int)
    requires
        distinct(entries),
        0 <= p < entries.len(),
    ensures
        distinct(entries.remove(p)),
        contents(entries.remove(p)) == contents(entries).remove(key_at(entries, p)),
{
    let after = entries.remove(p);
    let key = key_at(entries, p);
    assert forall|i: int| 0 <= i < after.len() implies #[trigger] key_at(after, i) == key_at(
        entries,
        if i < p {
            i
        } else {
            i + 1
        },
    ) by {}
    assert(distinct(after));
    assert forall|k: Seq<char>|
        contents(after).contains_key(k) == contents(entries).remove(key).contains_key(k) by {
        if contents(after).contains_key(k) {
            let i = choose|i: int| stands_at(after, k, i);
            assert(stands_at(after, k, i));
            let j = if i < p {
                i
            } else {
                i + 1
            };
            assert(key_at(entries, j) == k);
            assert(stands_at(entries, k, j));
            assert(k != key);
        }
        if contents(entries).remove(key).contains_key(k) {
            let j = choose|j: int| stands_at(entries, k, j);
            assert(stands_at(entries, k, j));
            let i = if j < p {
                j
            } else {
                j - 1
            };
            assert(key_at(after, i) == k);
            assert(stands_at(after, k, i));
        }
    }
    assert forall|k: Seq<char>| contents(after).contains_key(k) implies contents(after)[k]
        == contents(entries).remove(key)[k] by {
        let i = choose|i: int| stands_at(after, k, i);
        assert(stands_at(after, k, i));
        lemma_contents(after, i);
        let j = if i < p {
            i
        } else {
            i + 1
        };
        assert(key_at(entries, j) == k);
        lemma_contents(entries, j);
    }
    assert(contents(after) =~= contents(entries).remove(key));
}

} // verus!
