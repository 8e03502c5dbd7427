//! The domain events: immutable facts appended to the log.

use crate::account::{Category, Name, Number};
use crate::balance::Balance;
use crate::date::Date;
use crate::write::ledger::LedgerId;
use crate::JournalId;
use vstd::prelude::*;

verus! {

/// A fact of the bookkeeping. The log of events, in the order they were
/// appended, is the source of truth from which all state is derived.
#[derive(Debug, Clone, PartialEq, Eq, PartialOrd, Ord)]
pub enum Event {
    /// A ledger namespace was created.
    LedgerCreated { id: LedgerId },
    /// An account was opened in a ledger.
    AccountOpened { ledger: LedgerId, id: Number, name: Name, category: Category },
    /// An account of a ledger was closed.
    AccountClosed { ledger: LedgerId, account: Number },
    /// A balanced transaction was recorded in a ledger, with all its legs.
    Transaction {
        ledger: LedgerId,
        description: String,
        date: Date,
        transactions: Vec<(Number, Balance)>,
    },
    /// The header of a journal entry.
    Journal { id: JournalId, description: String, date: Date },
    /// One leg of the journal entry `journal`.
    Leg { journal: JournalId, account: Number, amount: Balance },
}

} // verus!
