//! A sequential schema-migration engine for the versioned state store
//! backing a governance module.
//!
//! Each migration step is gated on the store's schema version, transforms
//! records or singletons from the old layout to the new one exactly once,
//! and reports the number of store reads and writes it performed.

pub mod account;
pub mod laws;
pub mod ledger;
pub mod migrations;
pub mod records;
pub mod store;
