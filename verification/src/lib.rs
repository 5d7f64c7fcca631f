//! Core of a load generator for a single-connection, RSA-encrypted vote
//! notification protocol: username selection, payload construction,
//! encryption, outcome accounting and bounded-concurrency dispatch planning.

pub mod config;
pub mod crypto;
pub mod dispatch;
pub mod error;
pub mod payload;
pub mod pem;
pub mod selector;
pub mod stats;
pub mod transport;
pub mod vote;
