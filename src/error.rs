//! The errors of the aggregates.

use crate::balance::{Credit, Debit, Transaction};
use vstd::prelude::*;

verus! {

/// Why an account could not be opened or closed.
#[derive(Debug, Clone, Copy, PartialEq, Eq, Structural)]
pub enum AccountError {
    /// The account with this number is already open.
    Opened(u32),
    /// The account has already been closed.
    Closed,
    /// The account is not open.
    NotExist,
    /// The ledger does not exist.
    LedgerDoesnExist,
}

/// Why a ledger could not be created.
#[derive(Debug, Clone, Copy, PartialEq, Eq, Structural)]
pub enum LedgerError {
    /// A ledger with this id already exists.
    AlreadyExists,
}

/// Why a transaction could not be recorded in a ledger.
#[non_exhaustive]
#[derive(Debug, Clone, Copy, PartialEq, Eq, Structural)]
pub enum TransactionError {
    /// The debits and credits of the legs differ.
    ImbalancedTranasactions,
    /// A transaction must have at least one leg.
    EmptyTransaction,
    /// A leg refers to an account that is not open in the ledger.
    AccountDoesntExist,
    /// The ledger does not exist.
    LedgerDoesnExist,
    /// The ledger has used up its transaction ids.
    JournalLimitReached,
}

/// Why a journal entry could not be recorded.
#[derive(Debug, Clone, Copy, PartialEq, Eq, Structural)]
pub enum JournalError {
    /// The debits and credits of the legs differ.
    ImbalancedTranasactions,
    /// An entry must have at least one leg.
    EmptyTransaction,
    /// A leg refers to an account that is not open.
    InvalidTransaction,
    /// The journal has used up its ids.
    JournalLimitReached,
}

/// Why a journal was refused: its debit and credit totals differ, or one of
/// them does not fit in a `u32`. In the second case both totals read zero.
#[derive(Debug)]
pub struct JournalValidationError {
    pub(crate) debit: Transaction<Debit>,
    pub(crate) credit: Transaction<Credit>,
    pub(crate) overflow: bool,
}

impl JournalValidationError {
    pub open(crate) spec fn spec_debit(&self) -> Transaction<Debit> {
        self.debit
    }

    pub open(crate) spec fn spec_credit(&self) -> Transaction<Credit> {
        self.credit
    }

    pub open(crate) spec fn spec_overflow(&self) -> bool {
        self.overflow
    }

    /// Whether a total did not fit in a `u32`.
    pub fn is_overflow(&self) -> (r: bool)
        ensures
            r == self.spec_overflow(),
    {
        self.overflow
    }

    /// The total of the debits.
    pub fn debit(&self) -> (r: &Transaction<Debit>)
        ensures
            *r == self.spec_debit(),
    {
        &self.debit
    }

    /// The total of the credits.
    pub fn credit(&self) -> (r: &Transaction<Credit>)
        ensures
            *r == self.spec_credit(),
    {
        &self.credit
    }
}

} // verus!
