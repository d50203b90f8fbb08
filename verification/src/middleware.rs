//! The middleware protocol: per-request orchestration of the session
//! lifecycle.
//!
//! A request is served in phases: resolve a session from the inbound
//! transport token, hand it to the downstream handler, persist whatever the
//! handler left behind, and write the final key into the outbound transport
//! token. The decisions of each phase live here, verified against the driver
//! contract; an HTTP layer around this library performs the handler call and
//! the actual header I/O and feeds the results back in as plain values.

use crate::data::SessionData;
use crate::error::SessionError;
use crate::key::is_key_text;
use crate::manager::SessionManager;
use crate::session::{Session, SessionState, SessionView};
use crate::store::{SessionStore, StoreModel};
use vstd::prelude::*;

verus! {

/// How the session identity travels between client and server: as a named
/// cookie.
#[derive(Clone, Debug)]
pub enum SessionKind<C> {
    Cookie(C),
}

impl<C> SessionKind<C> {
    /// The name of the transport cookie.
    pub fn cookie_name(self) -> (r: C)
        ensures
            (match self {
                SessionKind::Cookie(c) => r == c,
            }),
    {
        match self {
            SessionKind::Cookie(c) => c,
        }
    }
}

/// The per-request service: an inner service wrapped with a driver and a
/// transport kind.
#[derive(Clone, Debug)]
pub struct SessionMiddleware<S, D: SessionStore, C> {
    pub inner: S,
    pub driver: D,
    pub kind: SessionKind<C>,
}

impl<S, D: SessionStore, C> SessionMiddleware<S, D, C> {
    /// Wraps `inner` with the given driver and transport kind.
    pub fn new(inner: S, driver: D, kind: SessionKind<C>) -> (r: Self)
        ensures
            r == (SessionMiddleware { inner, driver, kind }),
    {
        SessionMiddleware { inner, driver, kind }
    }
}

/// The reusable recipe for wrapping services: a driver and a transport kind.
#[derive(Clone, Debug)]
pub struct SessionLayer<D: SessionStore, C> {
    pub driver: D,
    pub kind: SessionKind<C>,
}

impl<D: SessionStore, C> SessionLayer<D, C> {
    /// A layer that will wrap services with the given driver and transport
    /// kind.
    pub fn new(driver: D, kind: SessionKind<C>) -> (r: Self)
        ensures
            r == (SessionLayer { driver, kind }),
    {
        SessionLayer { driver, kind }
    }

    /// Wraps `inner` into the middleware this layer describes.
    pub fn layer<S>(self, inner: S) -> (r: SessionMiddleware<S, D, C>)
        ensures
            r == (SessionMiddleware { inner, driver: self.driver, kind: self.kind }),
    {
        SessionMiddleware::new(inner, self.driver, self.kind)
    }
}

/// A freshly minted session: empty payload under a newly generated key, which
/// a conforming driver has materialized in its contents.
pub open spec fn fresh_session(pre: StoreModel, post: StoreModel, s: SessionView) -> bool {
    &&& s.data == Map::<Seq<char>, serde_json::Value>::empty()
    &&& s.key.len() == 64 && is_key_text(s.key)
    &&& post == pre.insert(s.key, Map::<Seq<char>, serde_json::Value>::empty())
}

/// The resolving phase: turn the inbound transport token, if any, into the
/// session the handler will see.
///
/// A candidate key whose record exists resolves to the stored session with
/// the contents untouched. No candidate key, and a candidate key the store
/// does not know, behave identically: a fresh empty session is minted. Only
/// an unexpected driver failure surfaces; `NotFound` never does. Even a
/// failing resolution leaves the contents untouched, but for at most one
/// fresh empty record a failed initialisation may have completed.
pub fn resolve_session<D: SessionManager>(driver: &mut D, inbound_key: Option<&str>) -> (r: Result<
    Session,
    SessionError,
>)
    requires
        old(driver).inv(),
    ensures
        final(driver).inv(),
        (match r {
            Ok(s) => s.wf() && s@.state == SessionState::Unchanged,
            Err(e) => !(e is NotFound),
        }),
        D::obeys_store_contract() ==> match r {
            Ok(s) => (match inbound_key {
                Some(k) => if old(driver).contents().contains_key(k@) {
                    s@.key == k@ && s@.data == old(driver).contents()[k@] && final(driver).contents()
                        == old(driver).contents()
                } else {
                    fresh_session(old(driver).contents(), final(driver).contents(), s@)
                },
                None => fresh_session(old(driver).contents(), final(driver).contents(), s@),
            }),
            Err(_) => final(driver).contents() == old(driver).contents() || (exists|k: Seq<char>|
                k.len() == 64 && is_key_text(k) && final(driver).contents() == old(
                    driver,
                ).contents().insert(k, Map::<Seq<char>, serde_json::Value>::empty())),
        },
        D::infallible() ==> r is Ok,
{
    let existing = match inbound_key {
        Some(k) => match driver.read(k) {
            Ok(s) => Some(s),
            Err(SessionError::NotFound) => None,
            Err(e) => {
                return Err(e);
            },
        },
        None => None,
    };
    match existing {
        Some(s) => Ok(s),
        None => {
            let key = match driver.init() {
                Ok(k) => k,
                Err(e) => {
                    return Err(e);
                },
            };
            Ok(Session::new(key, SessionData::new()))
        },
    }
}

/// How the persisting phase relates the final contents and final key to the
/// session the handler handed back.
pub open spec fn persist_outcome(pre: StoreModel, post: StoreModel, s: SessionView, k: Seq<char>) -> bool {
    match s.state {
        SessionState::Unchanged => post == pre && k == s.key,
        SessionState::Changed => post == pre.insert(s.key, s.data) && k == s.key,
        SessionState::Regenerated => post == pre.insert(k, s.data).remove(s.key),
        SessionState::Invalidated => post == pre.remove(s.key).insert(k, Map::<Seq<char>,
            serde_json::Value>::empty()),
    }
}

/// The persisting phase: dispatch on the session's final tag.
///
/// `Unchanged` touches the driver not at all and echoes the session's key;
/// the other tags run the corresponding derived operation. Any failure is
/// unexpected, never `NotFound`.
pub fn persist_session<D: SessionManager>(driver: &mut D, session: Session) -> (r: Result<
    String,
    SessionError,
>)
    requires
        old(driver).inv(),
        session.wf(),
    ensures
        final(driver).inv(),
        session@.state == SessionState::Unchanged ==> *final(driver) == *old(driver) && (match r {
            Ok(k) => k@ == session@.key,
            Err(_) => false,
        }),
        (match r {
            Ok(k) => ((session@.state == SessionState::Regenerated || session@.state
                == SessionState::Invalidated) ==> k@.len() == 64 && is_key_text(k@)) && (
            session@.state == SessionState::Changed ==> k@ == session@.key),
            Err(e) => !(e is NotFound),
        }),
        D::obeys_store_contract() ==> match r {
            Ok(k) => persist_outcome(old(driver).contents(), final(driver).contents(), session@,
                k@),
            Err(_) => true,
        },
        D::infallible() ==> r is Ok,
{
    let (key, state, data) = session.into_parts();
    match state {
        SessionState::Unchanged => Ok(key),
        SessionState::Changed => driver.write(key, data),
        SessionState::Regenerated => driver.regenerate(key.as_str(), data),
        SessionState::Invalidated => driver.invalidate(key.as_str()),
    }
}

/// The persisting phase when the handler may have dropped the session: a
/// handler that never relocated its session into the response leaves the
/// driver untouched, and the pre-handler key stands with state `Unchanged`.
pub fn persist_or_fallback<D: SessionManager>(
    driver: &mut D,
    handler_session: Option<Session>,
    fallback_key: String,
) -> (r: Result<String, SessionError>)
    requires
        old(driver).inv(),
        (match handler_session {
            Some(s) => s.wf(),
            None => true,
        }),
    ensures
        final(driver).inv(),
        (match handler_session {
            None => *final(driver) == *old(driver) && (match r {
                Ok(k) => k@ == fallback_key@,
                Err(_) => false,
            }),
            Some(s) => {
                &&& s@.state == SessionState::Unchanged ==> *final(driver) == *old(driver) && (
                match r {
                    Ok(k) => k@ == s@.key,
                    Err(_) => false,
                })
                &&& (match r {
                    Ok(k) => (s@.state == SessionState::Changed ==> k@ == s@.key),
                    Err(e) => !(e is NotFound),
                })
                &&& D::obeys_store_contract() ==> match r {
                    Ok(k) => persist_outcome(old(driver).contents(), final(driver).contents(), s@,
                        k@),
                    Err(_) => true,
                }
                &&& D::infallible() ==> r is Ok
            },
        }),
{
    match handler_session {
        Some(s) => persist_session(driver, s),
        None => Ok(fallback_key),
    }
}

/// The outbound transport token: a cookie carrying the final session key.
pub struct SessionCookie {
    pub name: String,
    pub value: String,
    pub http_only: bool,
}

/// The transporting phase's token: a cookie named `name` whose value is the
/// final session key, HTTP-only by default.
pub fn session_cookie(name: String, key: String) -> (c: SessionCookie)
    ensures
        c.name@ == name@,
        c.value@ == key@,
        c.http_only,
{
    SessionCookie { name, value: key, http_only: true }
}

} // verus!
