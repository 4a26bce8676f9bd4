//! Persistent-store core for a personal fitness-tracking application.
//!
//! The crate models a single local, file-backed relational database:
//! a versioned schema built up by an append-only catalog of migration
//! steps, a ledger recording which steps have been applied, and a typed
//! data-access layer over the entity tables.  Everything here is pure
//! logic over plain values; opening the database file, resolving its
//! path and talking to the on-disk storage engine belong to the host
//! application around this library.

pub mod catalog;
pub mod engine;
pub mod error;
pub mod ledger;
pub mod models;
pub mod schema;
pub mod script;
pub mod store;
pub mod table;
pub mod text;

use vstd::prelude::*;

verus! {

/// The schema version that a fully migrated store reports: the
/// highest version the built-in catalog defines.
pub const CURRENT_VERSION: u32 = 7;

} // verus!
