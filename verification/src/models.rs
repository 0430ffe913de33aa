//! The credential store's vocabulary and the operations that use it.

pub mod keys;
pub mod migrations;
pub mod passwords;
pub mod store;
pub mod store_model;
pub mod users;
