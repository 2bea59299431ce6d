//! An insertion-ordered map keyed by field elements.
//!
//! Keys are found through an `IndexMap`, which also fixes their order: a key
//! keeps the position it got when it was first inserted. The values live in a
//! vector of their own, each at the position of its key.

use crate::felt::Felt;
use indexmap::IndexMap;
use vstd::prelude::*;

verus! {

/// The map of `indexmap`, of whose inside nothing is known here.
#[verifier::external_type_specification]
#[verifier::external_body]
#[verifier::reject_recursive_types(K)]
#[verifier::reject_recursive_types(V)]
#[verifier::reject_recursive_types(S)]
pub struct ExIndexMap<K, V, S>(IndexMap<K, V, S>);

/// The keys that an index holds, in the order in which they were first
/// inserted. Each key is the four words of a field element.
pub uninterp spec fn index_keys(index: IndexMap<(u64, u64, u64, u64), ()>) -> Seq<
    (u64, u64, u64, u64),
>;

/// `IndexMap::new`: a fresh index holds no key.
#[verifier::external_body]
fn index_new() -> (index: IndexMap<(u64, u64, u64, u64), ()>)
    ensures
        index_keys(index) == Seq::<(u64, u64, u64, u64)>::empty(),
{
    IndexMap::new()
}

/// `IndexMap::get_index_of`: the position of a key among the keys held, or
/// `None` when the key is not held.
#[verifier::external_body]
fn index_position(index: &IndexMap<(u64, u64, u64, u64), ()>, key: (u64, u64, u64, u64)) -> (at:
    Option<usize>)
    ensures
        match at {
            Some(i) => i < index_keys(*index).len() && index_keys(*index)[i as int] == key,
            None => !index_keys(*index).contains(key),
        },
{
    index.get_index_of(&key)
}

/// `IndexMap::insert` with the unit value: a key that is already held stays
/// where it is, and a new key goes last.
#[verifier::external_body]
fn index_insert(index: &mut IndexMap<(u64, u64, u64, u64), ()>, key: (u64, u64, u64, u64))
    ensures
        index_keys(*old(index)).contains(key) ==> index_keys(*final(index)) == index_keys(
            *old(index),
        ),
        !index_keys(*old(index)).contains(key) ==> index_keys(*final(index)) == index_keys(
            *old(index),
        ).push(key),
{
    index.insert(key, ());
}

/// A map from field elements to values that remembers the order in which its
/// keys were first inserted.
pub struct OrderedMap<V> {
    index: IndexMap<(u64, u64, u64, u64), ()>,
    keys: Vec<Felt>,
    values: Vec<V>,
}

/// Whether `key` stands at position `i`.
pub open spec fn key_at<V>(entries: Seq<(Felt, V)>, key: Felt, i: int) -> bool {
    0 <= i < entries.len() && entries[i].0 == key
}

/// Whether `key` occurs among the entries.
pub open spec fn has_key<V>(entries: Seq<(Felt, V)>, key: Felt) -> bool {
    exists|i: int| key_at(entries, key, i)
}

/// A position at which `key` stands; the only one where keys are distinct.
pub open spec fn position_of<V>(entries: Seq<(Felt, V)>, key: Felt) -> int {
    choose|i: int| key_at(entries, key, i)
}

/// The value stored under a key, if the key occurs.
pub open spec fn lookup<V>(entries: Seq<(Felt, V)>, key: Felt) -> Option<V> {
    if has_key(entries, key) {
        Some(entries[position_of(entries, key)].1)
    } else {
        None
    }
}

/// The entries after `key` has been set to `value`: in place where the key
/// occurred, at the end where it did not.
pub open spec fn with_entry<V>(entries: Seq<(Felt, V)>, key: Felt, value: V) -> Seq<(Felt, V)> {
    if has_key(entries, key) {
        entries.update(position_of(entries, key), (key, value))
    } else {
        entries.push((key, value))
    }
}

/// No key occurs twice.
pub open spec fn distinct_keys<V>(entries: Seq<(Felt, V)>) -> bool {
    forall|i: int, j: int|
        0 <= i < entries.len() && 0 <= j < entries.len() && i != j ==> entries[i].0
            != entries[j].0
}

/// Where keys are distinct, a key is found at the one place it stands.
pub proof fn lemma_position_of_at<V>(entries: Seq<(Felt, V)>, i: int)
    requires
        distinct_keys(entries),
        0 <= i < entries.len(),
    ensures
        has_key(entries, entries[i].0),
        position_of(entries, entries[i].0) == i,
        lookup(entries, entries[i].0) == Some(entries[i].1),
{
    assert(key_at(entries, entries[i].0, i));
}

/// Setting a key keeps the keys distinct, makes the key yield the new value
/// and leaves what every other key yields as it was.
pub proof fn lemma_with_entry<V>(entries: Seq<(Felt, V)>, key: Felt, value: V)
    requires
        distinct_keys(entries),
    ensures
        distinct_keys(with_entry(entries, key, value)),
        lookup(with_entry(entries, key, value), key) == Some(value),
        forall|other: Felt|
            other != key ==> lookup(#[trigger] with_entry(entries, key, value), other) == lookup(
                entries,
                other,
            ),
{
    let after = with_entry(entries, key, value);
    if has_key(entries, key) {
        let i = position_of(entries, key);
        lemma_position_of_at(after, i);
        assert forall|other: Felt| other != key implies lookup(after, other) == lookup(
            entries,
            other,
        ) by {
            if has_key(entries, other) {
                let j = position_of(entries, other);
                lemma_position_of_at(after, j);
            } else if has_key(after, other) {
                let j = choose|j: int| key_at(after, other, j);
                assert(key_at(entries, other, j));
            }
        }
    } else {
        let n = entries.len() as int;
        assert forall|a: int, b: int|
            0 <= a < after.len() && 0 <= b < after.len() && a != b implies after[a].0
            != after[b].0 by {
            if a == n {
                assert(!key_at(entries, key, b));
            } else if b == n {
                assert(!key_at(entries, key, a));
            }
        }
        lemma_position_of_at(after, n);
        assert forall|other: Felt| other != key implies lookup(after, other) == lookup(
            entries,
            other,
        ) by {
            if has_key(entries, other) {
                let j = position_of(entries, other);
                lemma_position_of_at(after, j);
            } else if has_key(after, other) {
                let j = choose|j: int| key_at(after, other, j);
                assert(key_at(entries, other, j));
            }
        }
    }
}

/// Setting a key twice is the same as setting it once to the later value.
pub proof fn lemma_with_entry_twice<V>(entries: Seq<(Felt, V)>, key: Felt, first: V, second: V)
    requires
        distinct_keys(entries),
    ensures
        with_entry(with_entry(entries, key, first), key, second) == with_entry(
            entries,
            key,
            second,
        ),
{
    lemma_with_entry(entries, key, first);
    if !has_key(entries, key) {
        lemma_position_of_at(with_entry(entries, key, first), entries.len() as int);
    }
}

/// `shown` holds, key for key, what `project` makes of the values of `entries`.
pub open spec fn mapped<A, B>(entries: Seq<(Felt, A)>, project: spec_fn(A) -> B, shown: Seq<(Felt, B)>) -> bool {
    &&& shown.len() == entries.len()
    &&& forall|i: int|
        0 <= i < entries.len() ==> (#[trigger] shown[i]) == (entries[i].0, project(entries[i].1))
}

/// A key yields in the mapped entries what `project` makes of what it yields in
/// the entries themselves.
pub proof fn lemma_lookup_mapped<A, B>(
    entries: Seq<(Felt, A)>,
    project: spec_fn(A) -> B,
    shown: Seq<(Felt, B)>,
    key: Felt,
)
    requires
        distinct_keys(entries),
        mapped(entries, project, shown),
    ensures
        distinct_keys(shown),
        lookup(shown, key) == (match lookup(entries, key) {
            Some(value) => Some(project(value)),
            None => None,
        }),
{
    assert(distinct_keys(shown));
    if has_key(entries, key) {
        lemma_position_of_at(shown, position_of(entries, key));
    } else if has_key(shown, key) {
        let j = choose|j: int| key_at(shown, key, j);
        assert(key_at(entries, key, j));
    }
}

/// Setting a key in the entries sets it, in the mapped entries, to what `project`
/// makes of the value.
pub proof fn lemma_with_entry_mapped<A, B>(
    entries: Seq<(Felt, A)>,
    project: spec_fn(A) -> B,
    shown: Seq<(Felt, B)>,
    key: Felt,
    value: A,
    shown_after: Seq<(Felt, B)>,
)
    requires
        distinct_keys(entries),
        mapped(entries, project, shown),
        mapped(with_entry(entries, key, value), project, shown_after),
    ensures
        shown_after == with_entry(shown, key, project(value)),
{
    lemma_lookup_mapped(entries, project, shown, key);
    assert(shown_after =~= with_entry(shown, key, project(value)));
}

impl<V> OrderedMap<V> {
    /// The index, the keys and the values agree with one another.
    pub closed spec fn wf(&self) -> bool {
        &&& self.keys@.len() == self.values@.len()
        &&& index_keys(self.index).len() == self.keys@.len()
        &&& forall|i: int|
            0 <= i < self.keys@.len() ==> index_keys(self.index)[i] == self.keys@[i].spec_words()
        &&& forall|i: int, j: int|
            0 <= i < self.keys@.len() && 0 <= j < self.keys@.len() && i != j ==> self.keys@[i]
                != self.keys@[j]
    }

    /// The entries in the order in which their keys were first inserted.
    pub closed spec fn entries(&self) -> Seq<(Felt, V)> {
        Seq::new(self.keys@.len(), |i: int| (self.keys@[i], self.values@[i]))
    }

    /// The value stored under `key`, if any.
    pub open spec fn spec_get(&self, key: Felt) -> Option<V> {
        lookup(self.entries(), key)
    }

    /// A well-formed map holds no key twice.
    pub proof fn lemma_distinct(&self)
        requires
            self.wf(),
        ensures
            distinct_keys(self.entries()),
    {
    }

    pub fn new() -> (map: Self)
        ensures
            map.wf(),
            map.entries() == Seq::<(Felt, V)>::empty(),
    {
        OrderedMap { index: index_new(), keys: Vec::new(), values: Vec::new() }
    }

    pub fn len(&self) -> (n: usize)
        requires
            self.wf(),
        ensures
            n == self.entries().len(),
    {
        self.keys.len()
    }

    /// The position of `key` among the entries.
    fn find(&self, key: &Felt) -> (at: Option<usize>)
        requires
            self.wf(),
        ensures
            match at {
                Some(i) => key_at(self.entries(), *key, i as int) && position_of(
                    self.entries(),
                    *key,
                ) == i,
                None => !has_key(self.entries(), *key),
            },
    {
        let at = index_position(&self.index, key.words());
        proof {
            match at {
                Some(i) => {
                    lemma_position_of_at(self.entries(), i as int);
                },
                None => {
                    if has_key(self.entries(), *key) {
                        let j = choose|j: int| key_at(self.entries(), *key, j);
                        assert(index_keys(self.index)[j] == key.spec_words());
                    }
                },
            }
        }
        at
    }

    /// The value stored under `key`, if any.
    pub fn get(&self, key: &Felt) -> (value: Option<&V>)
        requires
            self.wf(),
        ensures
            match value {
                Some(v) => self.spec_get(*key) == Some(*v),
                None => self.spec_get(*key) is None,
            },
    {
        match self.find(key) {
            Some(i) => Some(&self.values[i]),
            None => None,
        }
    }

    /// The entry at a position, counted in insertion order.
    pub fn entry_at(&self, i: usize) -> (entry: (Felt, &V))
        requires
            self.wf(),
            i < self.entries().len(),
        ensures
            entry.0 == self.entries()[i as int].0,
            *entry.1 == self.entries()[i as int].1,
    {
        (self.keys[i], &self.values[i])
    }

    /// Stores `value` under `key` and returns the value it replaces. A key
    /// that was present keeps its position; a new key goes last.
    pub fn insert(&mut self, key: Felt, value: V) -> (replaced: Option<V>)
        requires
            old(self).wf(),
        ensures
            final(self).wf(),
            final(self).entries() == with_entry(old(self).entries(), key, value),
            replaced == old(self).spec_get(key),
    {
        let ghost before = self.entries();
        match self.find(&key) {
            Some(i) => {
                let mut value = value;
                core::mem::swap(&mut self.values[i], &mut value);
                Some(value)
            },
            None => {
                let ghost held = index_keys(self.index);
                assert(!held.contains(key.spec_words())) by {
                    if held.contains(key.spec_words()) {
                        let j = choose|j: int| 0 <= j < held.len() && held[j] == key.spec_words();
                        assert(key_at(before, key, j));
                    }
                }
                assert forall|i: int| 0 <= i < before.len() implies self.keys@[i] != key by {
                    if self.keys@[i] == key {
                        assert(key_at(before, key, i));
                    }
                }
                index_insert(&mut self.index, key.words());
                self.keys.push(key);
                self.values.push(value);
                None
            },
        }
    }
}

impl OrderedMap<Felt> {
    /// The entries as a list, in insertion order.
    pub fn to_vec(&self) -> (list: Vec<(Felt, Felt)>)
        requires
            self.wf(),
        ensures
            list@ == self.entries(),
    {
        let mut list: Vec<(Felt, Felt)> = Vec::new();
        let mut i: usize = 0;
        while i < self.len()
            invariant
                self.wf(),
                i <= self.entries().len(),
                list@ == self.entries().take(i as int),
            decreases self.entries().len() - i,
        {
            let (key, value) = self.entry_at(i);
            list.push((key, *value));
            i += 1;
        }
        list
    }
}

} // verus!
