//! The no-op driver: disables sessions without branching call sites.
//!
//! Reads fabricate a fresh empty session under the requested key, writes and
//! destroys succeed without storing anything, and the advertised expiry is
//! zero. It deliberately does not conform to the store contract's contents
//! model, so nothing about persistence is claimed of it.

use crate::data::SessionData;
use crate::error::SessionError;
use crate::manager::SessionManager;
use crate::session::Session;
use crate::store::{SessionStore, StoreModel};
use vstd::prelude::*;

verus! {

/// The driver that stores nothing.
#[derive(Clone, Debug)]
pub struct NullDriver {}

impl NullDriver {
    /// A new no-op driver.
    pub fn new() -> (r: NullDriver)
        ensures
            r.inv(),
    {
        NullDriver {  }
    }
}

impl Default for NullDriver {
    /// Same as [`NullDriver::new`].
    fn default() -> (r: NullDriver)
        ensures
            r.inv(),
    {
        NullDriver {  }
    }
}

impl SessionStore for NullDriver {
    open spec fn contents(&self) -> StoreModel {
        Map::empty()
    }

    open spec fn obeys_store_contract() -> bool {
        false
    }

    open spec fn spec_ttl(&self) -> u64 {
        0
    }

    open spec fn inv(&self) -> bool {
        true
    }

    open spec fn infallible() -> bool {
        true
    }

    open spec fn fabricates_empty() -> bool {
        true
    }

    fn read(&self, key: &str) -> (r: Result<Session, SessionError>) {
        let data = SessionData::new();
        Ok(Session::new(key.to_owned(), data))
    }

    fn write(&mut self, key: String, _data: SessionData) -> (r: Result<String, SessionError>) {
        Ok(key)
    }

    fn destroy(&mut self, _key: &str) -> (r: Result<(), SessionError>) {
        Ok(())
    }

    fn ttl(&self) -> (r: u64) {
        0
    }
}

impl SessionManager for NullDriver {

}

} // verus!
