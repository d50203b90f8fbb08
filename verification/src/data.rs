//! The session payload: a mapping from string keys to arbitrary
//! JSON-compatible values, insertion order irrelevant, defaulting to empty.
//!
//! Values are `serde_json::Value`s and are carried through opaquely: this
//! layer stores and returns them but never looks inside one.

use crate::assoc::{
    assoc_map, lemma_assoc_map_char, lemma_assoc_map_push, lemma_assoc_map_update, unique_keys,
};
use vstd::prelude::*;

verus! {

#[verifier::external_type_specification]
#[verifier::external_body]
pub struct ExValue(serde_json::Value);

/// Relies on serde_json::Value's derived Clone: the copy is structurally
/// equal to the original value.
#[verifier::external_body]
fn clone_value(v: &serde_json::Value) -> (r: serde_json::Value)
    ensures
        r == *v,
{
    v.clone()
}

/// The stored-value-to-view function for the payload: values are kept as is.
pub open spec fn value_of() -> spec_fn(serde_json::Value) -> serde_json::Value {
    |v: serde_json::Value| v
}

/// A session's key/value payload.
#[derive(Debug)]
pub struct SessionData {
    entries: Vec<(String, serde_json::Value)>,
}

impl View for SessionData {
    type V = Map<Seq<char>, serde_json::Value>;

    closed spec fn view(&self) -> Map<Seq<char>, serde_json::Value> {
        assoc_map(self.entries@, value_of())
    }
}

impl SessionData {
    /// Validity: no two entries share a key. Constructors establish it and
    /// every method preserves it.
    pub closed spec fn wf(&self) -> bool {
        unique_keys(self.entries@)
    }

    /// An empty payload.
    pub fn new() -> (r: SessionData)
        ensures
            r.wf(),
            r@ == Map::<Seq<char>, serde_json::Value>::empty(),
    {
        let entries: Vec<(String, serde_json::Value)> = Vec::new();
        let r = SessionData { entries };
        proof {
            assert(r@ =~= Map::<Seq<char>, serde_json::Value>::empty());
        }
        r
    }

    /// The position of `key`'s entry, if the payload holds one.
    fn find_index(&self, key: &str) -> (r: Option<usize>)
        ensures
            match r {
                Some(i) => i < self.entries@.len() && self.entries@[i as int].0@ == key@,
                None => forall|j: int|
                    0 <= j < self.entries@.len() ==> (#[trigger] self.entries@[j].0@) != key@,
            },
    {
        let owned: String = key.to_owned();
        let mut i: usize = 0;
        while i < self.entries.len()
            invariant
                i <= self.entries@.len(),
                owned@ == key@,
                forall|j: int| 0 <= j < i ==> (#[trigger] self.entries@[j].0@) != key@,
            decreases self.entries@.len() - i,
        {
            if self.entries[i].0 == owned {
                return Some(i);
            }
            i += 1;
        }
        None
    }

    /// Inserts or replaces the value stored under `key` (upsert).
    pub fn insert(&mut self, key: String, value: serde_json::Value)
        requires
            old(self).wf(),
        ensures
            final(self).wf(),
            final(self)@ == old(self)@.insert(key@, value),
    {
        match self.find_index(key.as_str()) {
            Some(i) => {
                proof {
                    lemma_assoc_map_update(self.entries@, value_of(), i as int, key, value);
                }
                self.entries.set(i, (key, value));
            },
            None => {
                proof {
                    lemma_assoc_map_push(self.entries@, value_of(), key, value);
                }
                self.entries.push((key, value));
            },
        }
    }

    /// The value stored under `key`, if any.
    pub fn get(&self, key: &str) -> (r: Option<&serde_json::Value>)
        requires
            self.wf(),
        ensures
            match r {
                Some(v) => self@.contains_key(key@) && *v == self@[key@],
                None => !self@.contains_key(key@),
            },
    {
        proof {
            lemma_assoc_map_char(self.entries@, value_of());
        }
        match self.find_index(key) {
            Some(i) => Some(&self.entries[i].1),
            None => None,
        }
    }

    /// Whether the payload holds no entry.
    pub fn is_empty(&self) -> (r: bool)
        requires
            self.wf(),
        ensures
            r == (self@ == Map::<Seq<char>, serde_json::Value>::empty()),
    {
        proof {
            lemma_assoc_map_char(self.entries@, value_of());
            if self.entries@.len() > 0 {
                assert(self@.contains_key(self.entries@[0].0@));
            } else {
                assert(self@ =~= Map::<Seq<char>, serde_json::Value>::empty());
            }
        }
        self.entries.len() == 0
    }
}

impl Clone for SessionData {
    /// The copy denotes the same payload.
    fn clone(&self) -> (r: SessionData)
        ensures
            r.wf() == self.wf(),
            r@ == self@,
    {
        let mut entries: Vec<(String, serde_json::Value)> = Vec::new();
        let mut i: usize = 0;
        while i < self.entries.len()
            invariant
                i <= self.entries@.len(),
                entries@ =~= self.entries@.subrange(0, i as int),
            decreases self.entries@.len() - i,
        {
            let key = self.entries[i].0.clone();
            let value = clone_value(&self.entries[i].1);
            proof {
                assert((key, value) == self.entries@[i as int]);
            }
            entries.push((key, value));
            i += 1;
        }
        proof {
            assert(entries@ =~= self.entries@);
        }
        SessionData { entries }
    }
}

impl Default for SessionData {
    /// The default payload is empty.
    fn default() -> (r: SessionData)
        ensures
            r.wf(),
            r@ == Map::<Seq<char>, serde_json::Value>::empty(),
    {
        SessionData::new()
    }
}

} // verus!
