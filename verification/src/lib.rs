//! Credential registration and verification.
//!
//! The crate holds the core of a small authentication service:
//!
//! * [`password`]: salted, self-describing password hashes (Argon2) and
//!   their verification;
//! * [`store`]: the requests the service puts to its key/value store and
//!   the answers it understands, with a model of a store that works;
//! * [`service`]: registration and login as state machines that decide and
//!   leave the talking to the caller;
//! * [`lifecycle`]: what whole requests do to a working store, and the
//!   laws that follow.
//!
//! Nothing here performs I/O. The caller owns the connection to the store:
//! it carries out each [`service::Action`] and hands the store's answer back
//! as a [`store::Event`].

pub mod lifecycle;
pub mod password;
pub mod service;
pub mod store;

pub use password::{hash, hash_with_salt, verify};
