//! A safe, verified binding layer over the SQLite engine.
//!
//! The engine itself (parsing, planning, storage) is reached through the
//! `sqlite` crate behind a small set of trusted declarations; everything
//! this crate adds on top of it — the status-code model, value marshaling,
//! parameter binding, row materialization, the generic value encoder and
//! typed row access — is verified.

pub mod cursor;
pub mod database;
pub mod encdec;
pub mod engine;
pub mod query;
pub mod sqltext;
pub mod types;
