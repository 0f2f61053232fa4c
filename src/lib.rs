//! A workload driver that loads a key-value store with random inserts and
//! range deletes until its backing file nearly fills the configured disk.
//!
//! The store and the file system are reached by the caller; this library
//! decides what to do each round, generates the keys and values, plans range
//! deletes, and keeps the live-key accounting.
use vstd::prelude::*;

pub mod config;
pub mod keygen;
pub mod laws;
pub mod oracle;
pub mod range_delete;
pub mod worker;

verus! {

} // verus!
