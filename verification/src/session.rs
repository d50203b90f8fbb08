//! The session entity: a key, its payload, and a mutation-state tag.
//!
//! A session starts `Unchanged` whenever it is resolved. Handler logic edits
//! the payload (tagging the session `Changed`) or explicitly requests a new
//! identity (`Regenerated`) or disposal (`Invalidated`). Exactly one tag
//! stands when the request ends; the last request wins.

use crate::data::SessionData;
use vstd::prelude::*;

verus! {

/// The per-request mutation intent.
#[derive(Clone, Copy, PartialEq, Eq, Structural, Debug)]
pub enum SessionState {
    Unchanged,
    Changed,
    Regenerated,
    Invalidated,
}

/// The abstract value of a [`Session`].
pub ghost struct SessionView {
    pub key: Seq<char>,
    pub data: Map<Seq<char>, serde_json::Value>,
    pub state: SessionState,
}

/// A session: key, payload, and mutation-state tag. Owned exclusively by the
/// request that resolved it.
pub struct Session {
    key: String,
    data: SessionData,
    state: SessionState,
}

impl View for Session {
    type V = SessionView;

    closed spec fn view(&self) -> SessionView {
        SessionView { key: self.key@, data: self.data@, state: self.state }
    }
}

impl Session {
    /// Validity of the payload's representation.
    pub closed spec fn wf(&self) -> bool {
        self.data.wf()
    }

    /// A freshly resolved session: the given key and payload, tagged
    /// `Unchanged`.
    pub fn new(key: String, data: SessionData) -> (r: Session)
        requires
            data.wf(),
        ensures
            r.wf(),
            r@.key == key@,
            r@.data == data@,
            r@.state == SessionState::Unchanged,
    {
        Session { key, data, state: SessionState::Unchanged }
    }

    /// The session's key.
    pub fn key(&self) -> (r: &String)
        ensures
            r@ == self@.key,
    {
        &self.key
    }

    /// The session's mutation-state tag.
    pub fn state(&self) -> (r: SessionState)
        ensures
            r == self@.state,
    {
        self.state
    }

    /// The value stored under `key` in the payload, if any.
    pub fn get(&self, key: &str) -> (r: Option<&serde_json::Value>)
        requires
            self.wf(),
        ensures
            match r {
                Some(v) => self@.data.contains_key(key@) && *v == self@.data[key@],
                None => !self@.data.contains_key(key@),
            },
    {
        self.data.get(key)
    }

    /// Whether the payload holds no entry.
    pub fn is_empty(&self) -> (r: bool)
        requires
            self.wf(),
        ensures
            r == (self@.data == Map::<Seq<char>, serde_json::Value>::empty()),
    {
        self.data.is_empty()
    }

    /// Stores `value` under `key` in the payload and tags the session
    /// `Changed`. Key and remaining entries are untouched.
    pub fn insert(&mut self, key: String, value: serde_json::Value)
        requires
            old(self).wf(),
        ensures
            final(self).wf(),
            final(self)@.key == old(self)@.key,
            final(self)@.data == old(self)@.data.insert(key@, value),
            final(self)@.state == SessionState::Changed,
    {
        self.data.insert(key, value);
        self.state = SessionState::Changed;
    }

    /// Requests a new identity: tags the session `Regenerated`, keeping key
    /// and payload.
    pub fn regenerate(&mut self)
        ensures
            final(self).wf() == old(self).wf(),
            final(self)@.key == old(self)@.key,
            final(self)@.data == old(self)@.data,
            final(self)@.state == SessionState::Regenerated,
    {
        self.state = SessionState::Regenerated;
    }

    /// Requests disposal: tags the session `Invalidated`, keeping key and
    /// payload.
    pub fn invalidate(&mut self)
        ensures
            final(self).wf() == old(self).wf(),
            final(self)@.key == old(self)@.key,
            final(self)@.data == old(self)@.data,
            final(self)@.state == SessionState::Invalidated,
    {
        self.state = SessionState::Invalidated;
    }

    /// Consumes the session into its key, tag, and payload.
    pub fn into_parts(self) -> (r: (String, SessionState, SessionData))
        ensures
            r.0@ == self@.key,
            r.1 == self@.state,
            r.2.wf() == self.wf(),
            r.2@ == self@.data,
    {
        let Session { key, data, state } = self;
        (key, state, data)
    }
}

impl Clone for Session {
    /// The copy denotes the same session.
    fn clone(&self) -> (r: Session)
        ensures
            r.wf() == self.wf(),
            r@ == self@,
    {
        Session { key: self.key.clone(), data: self.data.clone(), state: self.state }
    }
}

} // verus!
