//! Backend core for owner-scoped, soft-deletable text posts.
//!
//! The crate is built around two pieces of logic. `twoface` is an error model
//! that keeps a private diagnostic apart from the description a caller may
//! see. `datastore` holds the post records, the filters over them, and the two
//! ways a filter is applied: evaluated against a record in memory, or compiled
//! into predicate terms for a query-capable backend.

pub mod api;
pub mod config;
pub mod datastore;
pub mod twoface;
