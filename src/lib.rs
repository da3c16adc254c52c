//! A small persisted key-value store for an editor application: two well-known
//! keys, `settings` and `draft`, each holding one typed record, with defaults
//! written on first launch.

pub mod state;
pub mod store;
pub mod laws;
