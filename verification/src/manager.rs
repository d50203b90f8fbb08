//! Derived lifecycle operations, built purely from the driver contract so
//! that any conforming backend gets them for free.

use crate::data::SessionData;
use crate::error::SessionError;
use crate::key::{generate_random_key, is_key_text};
use crate::store::SessionStore;
use vstd::prelude::*;

verus! {

/// Lifecycle operations layered over [`SessionStore`]. The default bodies are
/// the only bodies: implementors inherit them.
pub trait SessionManager: SessionStore {
    /// Generates a fresh key and upserts `data` under it, returning the key.
    fn create(&mut self, data: SessionData) -> (r: Result<String, SessionError>)
        requires
            old(self).inv(),
            data.wf(),
        ensures
            final(self).inv(),
            (match r {
                Ok(k) => k@.len() == 64 && is_key_text(k@),
                Err(e) => !(e is NotFound),
            }),
            Self::obeys_store_contract() ==> match r {
                Ok(k) => final(self).contents() == old(self).contents().insert(k@, data@),
                Err(_) => final(self).contents() == old(self).contents() || (exists|k: Seq<char>|
                    k.len() == 64 && is_key_text(k) && final(self).contents() == old(
                        self,
                    ).contents().insert(k, data@)),
            },
            Self::infallible() ==> r is Ok,
    {
        let key = generate_random_key();
        let ghost fresh = key@;
        let r = self.write(key, data);
        proof {
            if Self::obeys_store_contract() && r is Err && self.contents() == old(
                self,
            ).contents().insert(fresh, data@) {
                assert(fresh.len() == 64 && is_key_text(fresh) && self.contents() == old(
                    self,
                ).contents().insert(fresh, data@));
            }
        }
        r
    }

    /// Produces a fresh, empty session: `create` with an empty payload.
    fn init(&mut self) -> (r: Result<String, SessionError>)
        requires
            old(self).inv(),
        ensures
            final(self).inv(),
            (match r {
                Ok(k) => k@.len() == 64 && is_key_text(k@),
                Err(e) => !(e is NotFound),
            }),
            Self::obeys_store_contract() ==> match r {
                Ok(k) => final(self).contents() == old(self).contents().insert(k@,
                    Map::<Seq<char>, serde_json::Value>::empty()),
                Err(_) => final(self).contents() == old(self).contents() || (exists|k: Seq<char>|
                    k.len() == 64 && is_key_text(k) && final(self).contents() == old(
                        self,
                    ).contents().insert(k, Map::<Seq<char>, serde_json::Value>::empty())),
            },
            Self::infallible() ==> r is Ok,
    {
        self.create(SessionData::new())
    }

    /// Moves the payload to a fresh key: creates the new session before
    /// destroying the old one, so a failed destroy still leaves the caller
    /// holding a valid new session rather than neither: even on failure the
    /// contents are untouched, or hold the payload under a fresh key, with the
    /// old key at most removed.
    fn regenerate(&mut self, key: &str, data: SessionData) -> (r: Result<String, SessionError>)
        requires
            old(self).inv(),
            data.wf(),
        ensures
            final(self).inv(),
            (match r {
                Ok(k) => k@.len() == 64 && is_key_text(k@),
                Err(e) => !(e is NotFound),
            }),
            Self::obeys_store_contract() ==> match r {
                Ok(k) => final(self).contents() == old(self).contents().insert(k@, data@).remove(
                    key@),
                Err(_) => final(self).contents() == old(self).contents() || (exists|k: Seq<char>|
                    k.len() == 64 && is_key_text(k) && (final(self).contents() == old(
                        self,
                    ).contents().insert(k, data@) || final(self).contents() == old(
                        self,
                    ).contents().insert(k, data@).remove(key@))),
            },
            Self::infallible() ==> r is Ok,
    {
        let ghost data_model = data@;
        let new_key = match self.create(data) {
            Ok(k) => k,
            Err(e) => {
                return Err(e);
            },
        };
        let ghost fresh = new_key@;
        let r = match self.destroy(key) {
            Ok(_) => Ok(new_key),
            Err(e) => Err(e),
        };
        proof {
            if Self::obeys_store_contract() && r is Err {
                assert(fresh.len() == 64 && is_key_text(fresh) && (self.contents() == old(
                    self,
                ).contents().insert(fresh, data_model) || self.contents() == old(
                    self,
                ).contents().insert(fresh, data_model).remove(key@)));
            }
        }
        r
    }

    /// Destroys the old key and initialises a fresh, empty session, so the
    /// caller always ends up holding some valid session key, never none. A
    /// failed destroy propagates before anything new is written: on failure
    /// the contents are untouched, rid of the old key, or additionally hold
    /// one fresh empty record.
    fn invalidate(&mut self, key: &str) -> (r: Result<String, SessionError>)
        requires
            old(self).inv(),
        ensures
            final(self).inv(),
            (match r {
                Ok(k) => k@.len() == 64 && is_key_text(k@),
                Err(e) => !(e is NotFound),
            }),
            Self::obeys_store_contract() ==> match r {
                Ok(k) => final(self).contents() == old(self).contents().remove(key@).insert(k@,
                    Map::<Seq<char>, serde_json::Value>::empty()),
                Err(_) => final(self).contents() == old(self).contents() || final(self).contents()
                    == old(self).contents().remove(key@) || (exists|k: Seq<char>|
                    k.len() == 64 && is_key_text(k) && final(self).contents() == old(
                        self,
                    ).contents().remove(key@).insert(k, Map::<Seq<char>,
                        serde_json::Value>::empty())),
            },
            Self::infallible() ==> r is Ok,
    {
        match self.destroy(key) {
            Ok(_) => (),
            Err(e) => {
                return Err(e);
            },
        }
        let ghost removed = self.contents();
        let r = self.init();
        proof {
            if Self::obeys_store_contract() && r is Err && removed == old(self).contents().remove(
                key@,
            ) && self.contents() != removed {
                let k = choose|k: Seq<char>|
                    k.len() == 64 && is_key_text(k) && self.contents() == removed.insert(k,
                        Map::<Seq<char>, serde_json::Value>::empty());
                assert(k.len() == 64 && is_key_text(k) && self.contents() == old(
                    self,
                ).contents().remove(key@).insert(k, Map::<Seq<char>,
                    serde_json::Value>::empty()));
            }
        }
        r
    }
}

} // verus!
