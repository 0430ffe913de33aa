//! Identity and authentication core: password credentials, passkey
//! registration ceremonies and the schema migration runner that prepares
//! their storage.
//!
//! Nothing here performs I/O. Every operation that needs the credential
//! store is a small state machine: it hands out the statement to execute
//! and is resumed with the store's reply.

pub mod errors;
pub mod models;
pub mod controllers;
pub mod config;
pub mod state;
