//! Server-side session management with a swappable storage driver.
//!
//! A session bundles an opaque string key, a string-keyed data payload, and a
//! mutation-state tag. Storage backends implement the driver contract in
//! [`store`]; the derived lifecycle operations and the per-request middleware
//! steps are built purely on that contract and verified against it.

pub mod assoc;
pub mod data;
pub mod error;
pub mod key;
pub mod manager;
pub mod memory;
pub mod middleware;
pub mod null;
pub mod session;
pub mod store;
