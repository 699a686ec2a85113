//! Authentication and session core of a small blog server.
//!
//! The crate owns user identity (accounts), credential verification
//! (salted key derivation), and browser-facing sessions (opaque tokens
//! with expiry), together with an in-memory model of the relational
//! store that the services persist to.

pub mod account;
pub mod boundary;
pub mod clock;
pub mod errors;
pub mod hash;
pub mod laws;
pub mod rank;
pub mod session;
pub mod store;
pub mod strutil;
pub mod threads;
pub mod token;
