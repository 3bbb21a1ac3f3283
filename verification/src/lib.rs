//! A tamper-evident activity ledger for an audit-engagement backend.
//!
//! Every change to a business record is appended to the ledger as an entry
//! that is sealed with a digest of its content and linked to the entry
//! before it. The ledger can be checked entry by entry and as a whole
//! chain, it can be queried, and an entry that recorded the state of its
//! resource can be reverted: the state is put back and the revert is itself
//! appended, so that history is extended and never rewritten.

pub mod acceptance;
pub mod auth;
pub mod blockchain_proof;
pub mod counters;
pub mod documents;
pub mod entry;
pub mod error;
pub mod hash;
pub mod ledger;
pub mod order;
pub mod organizations;
pub mod principal;
pub mod query;
pub mod records;
pub mod revert;
pub mod snapshot;
pub mod store;
pub mod table;
pub mod text;
pub mod verification;
pub mod working_papers;
