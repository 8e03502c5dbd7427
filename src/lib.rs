//! An event-sourced write model for double-entry bookkeeping.
//!
//! The append-only log of [`events::Event`]s is the source of truth: every
//! aggregate (chart of accounts, journal, ledger namespaces) rebuilds its state
//! by folding the log, validates a command against that state and returns the
//! new events to append.

pub mod account;
pub mod balance;
pub mod behaviour;
pub mod date;
pub mod entry;
pub mod error;
pub mod events;
pub mod handler;
pub mod identifier;
pub mod ledger;
pub mod legs;
pub mod projections;
pub mod store;
pub mod stream;
pub mod text;
pub mod write;

use vstd::prelude::*;

verus! {

/// Identifier of a journal entry; assigned in strictly increasing order from 1.
pub type JournalId = u32;

} // verus!
