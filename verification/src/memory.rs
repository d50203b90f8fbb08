//! The in-memory driver: process-local storage for testing and development.
//!
//! Records live in a vector of key/payload pairs with pairwise-distinct keys.
//! This driver conforms to the store contract: its operations maintain the
//! contents model exactly and never fail.

use crate::assoc::{
    assoc_map, lemma_assoc_map_char, lemma_assoc_map_push, lemma_assoc_map_remove,
    lemma_assoc_map_update, unique_keys,
};
use crate::data::SessionData;
use crate::error::SessionError;
use crate::manager::SessionManager;
use crate::session::Session;
use crate::store::{DataModel, SessionStore, StoreModel};
use vstd::prelude::*;

verus! {

/// The stored-payload-to-view function for the store: each payload denotes
/// its map.
pub open spec fn payload_of() -> spec_fn(SessionData) -> DataModel {
    |d: SessionData| d@
}

/// The driver that keeps every record in process memory.
#[derive(Debug)]
pub struct MemoryStore {
    entries: Vec<(String, SessionData)>,
}

impl MemoryStore {
    /// A new, empty store.
    pub fn new() -> (r: MemoryStore)
        ensures
            r.inv(),
            r.contents() == Map::<Seq<char>, DataModel>::empty(),
    {
        let entries: Vec<(String, SessionData)> = Vec::new();
        let r = MemoryStore { entries };
        proof {
            assert(r.contents() =~= Map::<Seq<char>, DataModel>::empty());
        }
        r
    }

    /// The position of `key`'s record, if the store holds one.
    fn find_index(&self, key: &str) -> (r: Option<usize>)
        ensures
            match r {
                Some(i) => i < self.entries@.len() && self.entries@[i as int].0@ == key@,
                None => forall|j: int|
                    0 <= j < self.entries@.len() ==> (#[trigger] self.entries@[j].0@) != key@,
            },
    {
        let owned: String = key.to_owned();
        let mut i: usize = 0;
        while i < self.entries.len()
            invariant
                i <= self.entries@.len(),
                owned@ == key@,
                forall|j: int| 0 <= j < i ==> (#[trigger] self.entries@[j].0@) != key@,
            decreases self.entries@.len() - i,
        {
            if self.entries[i].0 == owned {
                return Some(i);
            }
            i += 1;
        }
        None
    }
}

impl Default for MemoryStore {
    /// Same as [`MemoryStore::new`].
    fn default() -> (r: MemoryStore)
        ensures
            r.inv(),
            r.contents() == Map::<Seq<char>, DataModel>::empty(),
    {
        MemoryStore::new()
    }
}

impl SessionStore for MemoryStore {
    closed spec fn contents(&self) -> StoreModel {
        assoc_map(self.entries@, payload_of())
    }

    open spec fn obeys_store_contract() -> bool {
        true
    }

    open spec fn spec_ttl(&self) -> u64 {
        0
    }

    closed spec fn inv(&self) -> bool {
        unique_keys(self.entries@) && forall|i: int|
            0 <= i < self.entries@.len() ==> (#[trigger] self.entries@[i].1).wf()
    }

    open spec fn infallible() -> bool {
        true
    }

    open spec fn fabricates_empty() -> bool {
        false
    }

    fn read(&self, key: &str) -> (r: Result<Session, SessionError>) {
        proof {
            lemma_assoc_map_char(self.entries@, payload_of());
        }
        match self.find_index(key) {
            Some(i) => {
                let data = self.entries[i].1.clone();
                Ok(Session::new(key.to_owned(), data))
            },
            None => Err(SessionError::NotFound),
        }
    }

    fn write(&mut self, key: String, data: SessionData) -> (r: Result<String, SessionError>) {
        let returned = key.clone();
        match self.find_index(key.as_str()) {
            Some(i) => {
                proof {
                    lemma_assoc_map_update(self.entries@, payload_of(), i as int, key, data);
                }
                self.entries.set(i, (key, data));
            },
            None => {
                proof {
                    lemma_assoc_map_push(self.entries@, payload_of(), key, data);
                }
                self.entries.push((key, data));
            },
        }
        Ok(returned)
    }

    fn destroy(&mut self, key: &str) -> (r: Result<(), SessionError>) {
        match self.find_index(key) {
            Some(i) => {
                proof {
                    lemma_assoc_map_remove(self.entries@, payload_of(), i as int);
                }
                self.entries.remove(i);
            },
            None => {
                proof {
                    lemma_assoc_map_char(self.entries@, payload_of());
                    assert(self.contents() =~= self.contents().remove(key@));
                }
            },
        }
        Ok(())
    }

    fn ttl(&self) -> (r: u64) {
        0
    }
}

impl SessionManager for MemoryStore {

}

} // verus!
