//! A table keyed by text that keeps its entries in the order in which their
//! keys first came.
//!
//! It stands where a hash map would: no key occurs twice, and putting a value
//! under a key that is there replaces the value and leaves the order alone.

use crate::text::{str_eq, views};
use vstd::prelude::*;
use vstd::string::*;

verus! {

/// The index at which `key` stands in `keys`, if it stands there.
pub open spec fn position(keys: Seq<Seq<char>>, key: Seq<char>) -> Option<int> {
    if keys.contains(key) {
        Some(keys.index_of(key))
    } else {
        None
    }
}

/// The keys after `key` was put: unchanged if it was there, else with `key` at the end.
pub open spec fn put_key(keys: Seq<Seq<char>>, key: Seq<char>) -> Seq<Seq<char>> {
    if keys.contains(key) {
        keys
    } else {
        keys.push(key)
    }
}

/// The values after `value` was put under `key`.
pub open spec fn put_value<T>(keys: Seq<Seq<char>>, values: Seq<T>, key: Seq<char>, value: T) -> Seq<
    T,
> {
    if keys.contains(key) {
        values.update(keys.index_of(key), value)
    } else {
        values.push(value)
    }
}

/// The map that a list of distinct keys and the list of their values stand for.
pub open spec fn as_map<T>(keys: Seq<Seq<char>>, values: Seq<T>) -> Map<Seq<char>, T> {
    Map::new(|k: Seq<char>| keys.contains(k), |k: Seq<char>| values[keys.index_of(k)])
}

/// In a list without duplicates an element stands at one index only.
pub proof fn lemma_position_unique(keys: Seq<Seq<char>>, i: int)
    requires
        keys.no_duplicates(),
        0 <= i < keys.len(),
    ensures
        keys.contains(keys[i]),
        keys.index_of(keys[i]) == i,
{
}

/// Putting a value under a key is inserting it into the map.
pub proof fn lemma_put_is_insert<T>(keys: Seq<Seq<char>>, values: Seq<T>, key: Seq<char>, value: T)
    requires
        keys.no_duplicates(),
        keys.len() == values.len(),
    ensures
        put_key(keys, key).no_duplicates(),
        put_key(keys, key).len() == put_value(keys, values, key, value).len(),
        as_map(put_key(keys, key), put_value(keys, values, key, value)) == as_map(
            keys,
            values,
        ).insert(key, value),
{
    let keys2 = put_key(keys, key);
    let values2 = put_value(keys, values, key, value);
    let target = as_map(keys, values).insert(key, value);
    assert forall|k: Seq<char>| keys2.contains(k) <==> (keys.contains(k) || k == key) by {
        if keys.contains(k) {
            let i = keys.index_of(k);
            assert(keys2[i] == k);
        }
        if k == key && !keys.contains(key) {
            assert(keys2[keys.len() as int] == key);
        }
        if keys2.contains(k) {
            let i = keys2.index_of(k);
            if i < keys.len() {
                assert(keys[i] == k);
            }
        }
    }
    assert forall|k: Seq<char>| keys2.contains(k) implies #[trigger] as_map(keys2, values2)[k]
        == target[k] by {
        let i = keys2.index_of(k);
        if k == key {
            if keys.contains(key) {
                assert(keys[i] == key);
                assert(keys[keys.index_of(key)] == key);
            }
        } else {
            assert(keys[i] == k);
            let j = keys.index_of(k);
            assert(keys[j] == k);
            if keys.contains(key) {
                assert(keys[keys.index_of(key)] == key);
            }
        }
    }
    assert(as_map(keys2, values2) =~= target);
}

/// An insertion-ordered table from text to `T`.
pub struct Keyed<T> {
    keys: Vec<String>,
    values: Vec<T>,
}

impl<T> View for Keyed<T> {
    type V = Map<Seq<char>, T>;

    /// The table as a map.
    open spec fn view(&self) -> Map<Seq<char>, T> {
        as_map(self.keys(), self.values())
    }
}

impl<T> Keyed<T> {
    /// The keys, in the order in which they first came.
    pub closed spec fn keys(&self) -> Seq<Seq<char>> {
        views(self.keys@)
    }

    /// The values, each at the index of its key.
    pub closed spec fn values(&self) -> Seq<T> {
        self.values@
    }

    /// No key occurs twice, and every key has its value.
    pub open spec fn wf(&self) -> bool {
        &&& self.keys().no_duplicates()
        &&& self.keys().len() == self.values().len()
    }

    /// The empty table.
    pub fn new() -> (r: Self)
        ensures
            r.wf(),
            r.keys() == Seq::<Seq<char>>::empty(),
            r.values() == Seq::<T>::empty(),
    {
        let r = Keyed { keys: Vec::new(), values: Vec::new() };
        assert(r.keys() == Seq::<Seq<char>>::empty());
        r
    }

    /// The number of entries.
    pub fn len(&self) -> (n: usize)
        requires
            self.wf(),
        ensures
            n == self.keys().len(),
    {
        self.keys.len()
    }

    /// The index of `key`, if the table has it.
    pub fn find(&self, key: &str) -> (r: Option<usize>)
        requires
            self.wf(),
        ensures
            match r {
                Some(i) => position(self.keys(), key@) == Some(i as int) && i < self.keys().len()
                    && self.keys()[i as int] == key@,
                None => position(self.keys(), key@) is None,
            },
    {
        let mut i: usize = 0;
        while i < self.keys.len()
            invariant
                self.wf(),
                i <= self.keys@.len(),
                forall|j: int| 0 <= j < i ==> self.keys()[j] != key@,
            decreases self.keys@.len() - i,
        {
            assert(self.keys()[i as int] == self.keys@[i as int]@);
            if str_eq(self.keys[i].as_str(), key) {
                proof {
                    lemma_position_unique(self.keys(), i as int);
                }
                return Some(i);
            }
            i += 1;
        }
        assert(!self.keys().contains(key@));
        None
    }

    /// The key at index `i`.
    pub fn key(&self, i: usize) -> (r: &String)
        requires
            self.wf(),
            i < self.keys().len(),
        ensures
            r@ == self.keys()[i as int],
    {
        &self.keys[i]
    }

    /// The value at index `i`.
    pub fn value(&self, i: usize) -> (r: &T)
        requires
            self.wf(),
            i < self.keys().len(),
        ensures
            *r == self.values()[i as int],
    {
        &self.values[i]
    }

    /// The value under `key`, if the table has it.
    pub fn get(&self, key: &str) -> (r: Option<&T>)
        requires
            self.wf(),
        ensures
            match r {
                Some(value) => self@.contains_key(key@) && self@[key@] == *value,
                None => !self@.contains_key(key@),
            },
    {
        match self.find(key) {
            Some(i) => Some(&self.values[i]),
            None => None,
        }
    }

    /// Puts `value` under `key`: in place of the value that was there, or as a
    /// new last entry.
    pub fn put(&mut self, key: &str, value: T)
        requires
            old(self).wf(),
        ensures
            final(self).wf(),
            final(self).keys() == put_key(old(self).keys(), key@),
            final(self).values() == put_value(old(self).keys(), old(self).values(), key@, value),
            final(self)@ == old(self)@.insert(key@, value),
    {
        proof {
            lemma_put_is_insert(self.keys(), self.values(), key@, value);
        }
        match self.find(key) {
            Some(i) => {
                self.values.set(i, value);
            },
            None => {
                let ghost before = self.keys@;
                self.keys.push(String::from_str(key));
                self.values.push(value);
                assert(views(self.keys@) == views(before).push(key@));
            },
        }
    }
}

} // verus!
