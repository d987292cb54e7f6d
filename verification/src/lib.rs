//! A verified core for a minimal todo list service.
//!
//! The service keeps a single table of todo records, each with an id assigned
//! at creation, a user-supplied description, and a done/not-done status.
//! This crate holds the verified logic of that service: the record types, the
//! table state machine with its create, list, update and delete transitions,
//! and the classification of storage outcomes into the two surfaced errors
//! (not found, internal). I/O glue — HTTP routing and the storage engine —
//! lives outside the library and hands it plain values.

pub mod service;
pub mod table;
pub mod todo;
