//! Write-path reconciliation engine for a chat-event store.
//!
//! Incoming, possibly partial descriptions of users, guilds, channels and
//! messages are reconciled against stored state with an update-or-create
//! strategy.  The crate holds the decision logic and its proofs: the
//! statement builders that feed the relational store, the interpretation of
//! affected-row counts, a model of the store against which the reconciliation
//! semantics are verified, and the orchestration that sequences best-effort
//! enrichment with the hard persistence steps.  The boundary (HTTP routing,
//! the database driver, the enrichment HTTP client) lives outside and only
//! exchanges plain values with this crate.

pub mod builder;
pub mod entities;
pub mod laws;
pub mod outcome;
pub mod pipeline;
pub mod store;
