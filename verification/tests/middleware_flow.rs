//! The per-request middleware protocol: resolve, hand off, persist, transport.

use cortev_session::data::SessionData;
use cortev_session::memory::MemoryStore;
use cortev_session::middleware::{
    persist_or_fallback, persist_session, resolve_session, session_cookie, SessionKind,
    SessionLayer, SessionMiddleware,
};
use cortev_session::null::NullDriver;
use cortev_session::session::SessionState;
use cortev_session::store::SessionStore;

#[test]
fn no_inbound_token_mints_fresh_empty_session() {
    let mut store = MemoryStore::new();
    let session = resolve_session(&mut store, None).unwrap();
    assert!(session.is_empty());
    assert_eq!(session.state(), SessionState::Unchanged);
    let key = session.key().clone();
    assert_eq!(key.chars().count(), 64);
    let stored = store.read(key.as_str()).unwrap();
    assert!(stored.is_empty());
}

#[test]
fn unknown_inbound_token_behaves_like_none() {
    let mut store = MemoryStore::new();
    let session = resolve_session(&mut store, Some("gone")).unwrap();
    assert!(session.is_empty());
    assert_eq!(session.state(), SessionState::Unchanged);
    assert_ne!(session.key(), "gone");
    assert_eq!(session.key().chars().count(), 64);
    let stored = store.read(session.key().as_str()).unwrap();
    assert!(stored.is_empty());
}

#[test]
fn known_inbound_token_resolves_stored_session() {
    let mut store = MemoryStore::new();
    let mut data = SessionData::new();
    data.insert("user".to_string(), serde_json::Value::String("u1".to_string()));
    store.write("k1".to_string(), data).unwrap();
    let session = resolve_session(&mut store, Some("k1")).unwrap();
    assert_eq!(session.key(), "k1");
    assert_eq!(session.state(), SessionState::Unchanged);
    assert_eq!(
        session.get("user"),
        Some(&serde_json::Value::String("u1".to_string()))
    );
}

#[test]
fn unchanged_session_persists_to_same_key() {
    let mut store = MemoryStore::new();
    let mut data = SessionData::new();
    data.insert("user".to_string(), serde_json::Value::String("u1".to_string()));
    store.write("k1".to_string(), data).unwrap();
    let session = resolve_session(&mut store, Some("k1")).unwrap();
    let key = persist_session(&mut store, session).unwrap();
    assert_eq!(key, "k1");
    let still = store.read("k1").unwrap();
    assert_eq!(
        still.get("user"),
        Some(&serde_json::Value::String("u1".to_string()))
    );
}

#[test]
fn dropped_session_falls_back_to_original_key() {
    let mut store = MemoryStore::new();
    let key = persist_or_fallback(&mut store, None, "k1".to_string()).unwrap();
    assert_eq!(key, "k1");
}

#[test]
fn first_visit_then_return_visit_sees_written_data() {
    let mut store = MemoryStore::new();

    let mut session = resolve_session(&mut store, None).unwrap();
    assert!(session.is_empty());
    session.insert("user".to_string(), serde_json::Value::String("u1".to_string()));
    assert_eq!(session.state(), SessionState::Changed);
    let expected_key = session.key().clone();
    let k1 = persist_or_fallback(&mut store, Some(session), expected_key.clone()).unwrap();
    assert_eq!(k1, expected_key);

    let follow_up = resolve_session(&mut store, Some(k1.as_str())).unwrap();
    assert_eq!(
        follow_up.get("user"),
        Some(&serde_json::Value::String("u1".to_string()))
    );
}

#[test]
fn invalidation_mints_fresh_key_and_destroys_old() {
    let mut store = MemoryStore::new();
    store.write("K2".to_string(), SessionData::new()).unwrap();

    let mut session = resolve_session(&mut store, Some("K2")).unwrap();
    assert_eq!(session.key(), "K2");
    assert!(session.is_empty());
    session.invalidate();
    let k3 = persist_session(&mut store, session).unwrap();
    assert_ne!(k3, "K2");

    assert!(store.read("K2").is_err());
    let fresh = store.read(k3.as_str()).unwrap();
    assert!(fresh.is_empty());
}

#[test]
fn regeneration_carries_data_to_new_key() {
    let mut store = MemoryStore::new();
    let mut data = SessionData::new();
    data.insert("user".to_string(), serde_json::Value::String("u1".to_string()));
    store.write("k1".to_string(), data).unwrap();

    let mut session = resolve_session(&mut store, Some("k1")).unwrap();
    session.regenerate();
    let new_key = persist_session(&mut store, session).unwrap();
    assert_ne!(new_key, "k1");
    assert!(store.read("k1").is_err());
    let moved = store.read(new_key.as_str()).unwrap();
    assert_eq!(
        moved.get("user"),
        Some(&serde_json::Value::String("u1".to_string()))
    );
}

#[test]
fn cookie_token_is_http_only() {
    let cookie = session_cookie("sid".to_string(), "k1".to_string());
    assert_eq!(cookie.name, "sid");
    assert_eq!(cookie.value, "k1");
    assert!(cookie.http_only);
}

#[test]
fn layer_wraps_services_with_its_driver_and_kind() {
    let layer = SessionLayer::new(NullDriver::new(), SessionKind::Cookie("sid".to_string()));
    let middleware = layer.layer("inner-service");
    assert_eq!(middleware.inner, "inner-service");
    assert!(matches!(&middleware.kind, SessionKind::Cookie(name) if name == "sid"));
}

#[test]
fn middleware_holds_its_parts() {
    let middleware =
        SessionMiddleware::new(7u32, NullDriver::new(), SessionKind::Cookie("sid".to_string()));
    assert_eq!(middleware.inner, 7);
    let name = middleware.kind.cookie_name();
    assert_eq!(name, "sid");
}

#[test]
fn null_driver_resolve_never_touches_storage() {
    let mut driver = NullDriver::new();
    let session = resolve_session(&mut driver, Some("anything")).unwrap();
    assert_eq!(session.key(), "anything");
    assert!(session.is_empty());
    let key = persist_session(&mut driver, session).unwrap();
    assert_eq!(key, "anything");
}
