//! Store, manager and session lifecycle behaviour on the reference drivers.

use cortev_session::data::SessionData;
use cortev_session::error::SessionError;
use cortev_session::key::generate_random_key;
use cortev_session::manager::SessionManager;
use cortev_session::memory::MemoryStore;
use cortev_session::null::NullDriver;
use cortev_session::session::{Session, SessionState};
use cortev_session::store::SessionStore;

fn user_data(name: &str) -> SessionData {
    let mut data = SessionData::new();
    data.insert(
        "user".to_string(),
        serde_json::Value::String(name.to_string()),
    );
    data
}

#[test]
fn generated_key_shape() {
    let key = generate_random_key();
    assert_eq!(key.chars().count(), 64);
    assert!(key.chars().all(|c| c.is_ascii_alphanumeric()));
}

#[test]
fn generated_keys_differ() {
    assert_ne!(generate_random_key(), generate_random_key());
}

#[test]
fn data_insert_get_round_trip() {
    let mut data = SessionData::new();
    assert!(data.is_empty());
    data.insert("a".to_string(), serde_json::Value::Bool(true));
    assert!(!data.is_empty());
    assert_eq!(data.get("a"), Some(&serde_json::Value::Bool(true)));
    assert_eq!(data.get("b"), None);
}

#[test]
fn data_insert_overwrites() {
    let mut data = SessionData::new();
    data.insert("a".to_string(), serde_json::Value::Bool(true));
    data.insert("a".to_string(), serde_json::Value::Bool(false));
    assert_eq!(data.get("a"), Some(&serde_json::Value::Bool(false)));
}

#[test]
fn data_clone_carries_entries() {
    let data = user_data("u1");
    let copy = data.clone();
    assert_eq!(
        copy.get("user"),
        Some(&serde_json::Value::String("u1".to_string()))
    );
}

#[test]
fn session_tags_follow_mutations() {
    let mut session = Session::new("k".to_string(), user_data("u1"));
    assert_eq!(session.state(), SessionState::Unchanged);
    session.insert("n".to_string(), serde_json::Value::Null);
    assert_eq!(session.state(), SessionState::Changed);
    session.regenerate();
    assert_eq!(session.state(), SessionState::Regenerated);
    session.invalidate();
    assert_eq!(session.state(), SessionState::Invalidated);
    let (key, state, data) = session.into_parts();
    assert_eq!(key, "k");
    assert_eq!(state, SessionState::Invalidated);
    assert_eq!(data.get("n"), Some(&serde_json::Value::Null));
}

#[test]
fn write_then_read_round_trips() {
    let mut store = MemoryStore::new();
    let key = store.write("k1".to_string(), user_data("u1")).unwrap();
    assert_eq!(key, "k1");
    let session = store.read("k1").unwrap();
    assert_eq!(session.state(), SessionState::Unchanged);
    assert_eq!(session.key(), "k1");
    assert_eq!(
        session.get("user"),
        Some(&serde_json::Value::String("u1".to_string()))
    );
}

#[test]
fn write_twice_is_idempotent() {
    let mut store = MemoryStore::new();
    store.write("k1".to_string(), user_data("u1")).unwrap();
    store.write("k1".to_string(), user_data("u1")).unwrap();
    let session = store.read("k1").unwrap();
    assert_eq!(
        session.get("user"),
        Some(&serde_json::Value::String("u1".to_string()))
    );
}

#[test]
fn read_missing_key_fails_not_found() {
    let store = MemoryStore::new();
    assert!(matches!(store.read("absent"), Err(SessionError::NotFound)));
}

#[test]
fn destroy_is_idempotent() {
    let mut store = MemoryStore::new();
    store.write("k1".to_string(), user_data("u1")).unwrap();
    store.destroy("k1").unwrap();
    store.destroy("k1").unwrap();
    store.destroy("never-existed").unwrap();
    assert!(matches!(store.read("k1"), Err(SessionError::NotFound)));
}

#[test]
fn regenerate_moves_payload_to_fresh_key() {
    let mut store = MemoryStore::new();
    store.write("k1".to_string(), user_data("u1")).unwrap();
    let new_key = store.regenerate("k1", user_data("u1")).unwrap();
    assert_ne!(new_key, "k1");
    assert!(matches!(store.read("k1"), Err(SessionError::NotFound)));
    let session = store.read(new_key.as_str()).unwrap();
    assert_eq!(
        session.get("user"),
        Some(&serde_json::Value::String("u1".to_string()))
    );
}

#[test]
fn invalidate_leaves_fresh_empty_session() {
    let mut store = MemoryStore::new();
    store.write("k1".to_string(), user_data("u1")).unwrap();
    let new_key = store.invalidate("k1").unwrap();
    assert_ne!(new_key, "k1");
    assert!(matches!(store.read("k1"), Err(SessionError::NotFound)));
    let session = store.read(new_key.as_str()).unwrap();
    assert!(session.is_empty());
}

#[test]
fn create_and_init_mint_readable_keys() {
    let mut store = MemoryStore::new();
    let k1 = store.create(user_data("u1")).unwrap();
    assert_eq!(k1.chars().count(), 64);
    let s1 = store.read(k1.as_str()).unwrap();
    assert_eq!(
        s1.get("user"),
        Some(&serde_json::Value::String("u1".to_string()))
    );
    let k2 = store.init().unwrap();
    let s2 = store.read(k2.as_str()).unwrap();
    assert!(s2.is_empty());
}

#[test]
fn null_driver_fabricates_empty_sessions() {
    let mut driver = NullDriver::new();
    let session = driver.read("anything").unwrap();
    assert_eq!(session.key(), "anything");
    assert!(session.is_empty());
    assert_eq!(session.state(), SessionState::Unchanged);
    let key = driver.write("k".to_string(), user_data("u1")).unwrap();
    assert_eq!(key, "k");
    driver.destroy("k").unwrap();
    let again = driver.read("k").unwrap();
    assert!(again.is_empty());
}

#[test]
fn ttl_is_informational_zero() {
    let store = MemoryStore::new();
    assert_eq!(store.ttl(), 0);
    let driver = NullDriver::default();
    assert_eq!(driver.ttl(), 0);
}

#[test]
fn error_status_and_message() {
    let not_found = SessionError::NotFound;
    assert_eq!(not_found.status_code(), 404);
    assert_eq!(not_found.response_message(), "session not found");
    let unexpected = SessionError::Unexpected("backend gone".to_string());
    assert_eq!(unexpected.status_code(), 500);
    assert_eq!(unexpected.response_message(), "unexpected error");
}
