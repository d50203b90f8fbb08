//! The driver contract: backend-agnostic read/write/destroy/ttl operations.
//!
//! A driver models its backend as [`SessionStore::contents`], a map from keys
//! to stored payloads. Conforming drivers (those whose
//! [`SessionStore::obeys_store_contract`] holds) maintain that model exactly;
//! the no-op driver implements the same interface without conforming, which
//! disables sessions without branching call sites.

use crate::data::SessionData;
use crate::error::SessionError;
use crate::session::{Session, SessionState};
use vstd::prelude::*;

verus! {

/// The abstract payload stored under one key.
pub type DataModel = Map<Seq<char>, serde_json::Value>;

/// The abstract contents of a backend: each stored key's payload.
pub type StoreModel = Map<Seq<char>, DataModel>;

/// What a lookup of `k` yields on contents `c`.
pub open spec fn read_of(c: StoreModel, k: Seq<char>) -> Option<DataModel> {
    if c.contains_key(k) {
        Some(c[k])
    } else {
        None
    }
}

/// The backend contract every storage driver implements.
pub trait SessionStore: Sized {
    /// The abstract contents of the backend.
    spec fn contents(&self) -> StoreModel;

    /// Whether the driver's operations faithfully maintain [`Self::contents`].
    /// Everything stated about how an operation changes the contents is
    /// conditional on it; the no-op driver does not conform.
    spec fn obeys_store_contract() -> bool;

    /// The advertised expiry policy, in whole seconds.
    spec fn spec_ttl(&self) -> u64;

    /// The driver's internal validity: constructors establish it and every
    /// operation preserves it.
    spec fn inv(&self) -> bool;

    /// Whether the driver's operations are free of unexpected failures.
    /// Process-local drivers are; a driver in front of fallible backend I/O
    /// is not, and callers then learn nothing about which results fail.
    spec fn infallible() -> bool;

    /// Whether reads fabricate a fresh empty session instead of consulting
    /// storage. The no-op driver does, and such a read always succeeds.
    spec fn fabricates_empty() -> bool;

    /// Looks up the session stored under `key`. A returned session echoes the
    /// key and is tagged `Unchanged`; a conforming driver returns exactly the
    /// stored payload, fabricates no session, and fails `NotFound` precisely
    /// when the key is absent.
    fn read(&self, key: &str) -> (r: Result<Session, SessionError>)
        requires
            self.inv(),
        ensures
            (match r {
                Ok(s) => s.wf() && s@.key == key@ && s@.state == SessionState::Unchanged,
                Err(_) => true,
            }),
            Self::obeys_store_contract() ==> match r {
                Ok(s) => read_of(self.contents(), key@) == Some(s@.data),
                Err(SessionError::NotFound) => read_of(self.contents(), key@) is None,
                Err(SessionError::Unexpected(_)) => true,
            },
            Self::infallible() ==> (match r {
                Err(SessionError::Unexpected(_)) => false,
                _ => true,
            }),
            Self::fabricates_empty() ==> (match r {
                Ok(s) => s@.data == Map::<Seq<char>, serde_json::Value>::empty(),
                Err(_) => false,
            }),
    ;

    /// Upserts `data` under `key`: creates the record if absent, overwrites it
    /// if present, and returns the same key. Never fails `NotFound`. The
    /// contents are only ever mutated by a completed upsert: even a failing
    /// call leaves them either untouched or fully upserted.
    fn write(&mut self, key: String, data: SessionData) -> (r: Result<String, SessionError>)
        requires
            old(self).inv(),
            data.wf(),
        ensures
            final(self).inv(),
            (match r {
                Ok(k) => k@ == key@,
                Err(e) => !(e is NotFound),
            }),
            Self::obeys_store_contract() ==> match r {
                Ok(_) => final(self).contents() == old(self).contents().insert(key@, data@),
                Err(_) => final(self).contents() == old(self).contents() || final(self).contents()
                    == old(self).contents().insert(key@, data@),
            },
            Self::infallible() ==> r is Ok,
    ;

    /// Removes the record under `key`. Destroying an absent key counts as
    /// success (idempotent), so `NotFound` is never returned. The contents are
    /// only ever mutated by a completed removal: even a failing call leaves
    /// them either untouched or fully rid of the key.
    fn destroy(&mut self, key: &str) -> (r: Result<(), SessionError>)
        requires
            old(self).inv(),
        ensures
            final(self).inv(),
            (match r {
                Ok(_) => true,
                Err(e) => !(e is NotFound),
            }),
            Self::obeys_store_contract() ==> match r {
                Ok(_) => final(self).contents() == old(self).contents().remove(key@),
                Err(_) => final(self).contents() == old(self).contents() || final(self).contents()
                    == old(self).contents().remove(key@),
            },
            Self::infallible() ==> r is Ok,
    ;

    /// Advertises the backend's expiry policy; informational only, not
    /// enforced by this contract layer.
    fn ttl(&self) -> (r: u64)
        ensures
            r == self.spec_ttl(),
    ;
}

/// Round trip: an upsert of `d` under `k` leaves a read of `k` yielding `d`,
/// whatever the contents held before.
pub proof fn lemma_write_then_read(c: StoreModel, k: Seq<char>, d: DataModel)
    ensures
        read_of(c.insert(k, d), k) == Some(d),
{
}

/// Upsert idempotence: writing the same payload twice denotes the same
/// contents as writing it once, and a read still yields that payload.
pub proof fn lemma_write_idempotent(c: StoreModel, k: Seq<char>, d: DataModel)
    ensures
        c.insert(k, d).insert(k, d) == c.insert(k, d),
        read_of(c.insert(k, d).insert(k, d), k) == Some(d),
{
    assert(c.insert(k, d).insert(k, d) =~= c.insert(k, d));
}

/// Regeneration: once the new key `k2` differs from the old key `k`, the old
/// key no longer resolves and the new key carries the moved payload.
pub proof fn lemma_regenerate_effect(c: StoreModel, k: Seq<char>, d: DataModel, k2: Seq<char>)
    requires
        k2 != k,
    ensures
        read_of(c.insert(k2, d).remove(k), k) is None,
        read_of(c.insert(k2, d).remove(k), k2) == Some(d),
{
}

/// Invalidation: once the replacement key `k2` differs from the old key `k`,
/// the old key no longer resolves and the replacement holds an empty payload.
pub proof fn lemma_invalidate_effect(c: StoreModel, k: Seq<char>, k2: Seq<char>)
    requires
        k2 != k,
    ensures
        read_of(c.remove(k).insert(k2, Map::empty()), k) is None,
        read_of(c.remove(k).insert(k2, Map::empty()), k2) == Some(Map::<Seq<char>,
            serde_json::Value>::empty()),
{
}

} // verus!
