//! The command handler: one read-validate-append cycle per command.
//!
//! Each command rebuilds the aggregate it needs from the current log, lets
//! it decide, and appends the resulting events, or appends nothing and
//! reports the error. Running the commands one at a time, in the order they
//! arrive, is what makes each cycle atomic.

use crate::account::{Category, Name, Number};
use crate::balance::Balance;
use crate::date::Date;
use crate::error::{AccountError, LedgerError, TransactionError};
use crate::events::Event;
use crate::store::EventStorage;
use crate::write::chart::open_outcome;
use crate::write::ledger::{
    created_ledgers, ledger_accounts, transaction_count, transaction_outcome, Ledger, LedgerId,
    LedgerResolver,
};
use crate::JournalId;
use vstd::prelude::*;
use vstd::string::*;

verus! {

/// The events that creating ledger `id` appends to `log`, or its error.
pub open spec fn create_ledger_outcome(log: Seq<Event>, id: LedgerId) -> Result<
    Seq<Event>,
    LedgerError,
> {
    if created_ledgers(log).contains(id@) {
        Err(LedgerError::AlreadyExists)
    } else {
        Ok(seq![Event::LedgerCreated { id }])
    }
}

/// The events that opening an account appends to `log`, or its error.
pub open spec fn create_account_outcome(
    log: Seq<Event>,
    ledger: LedgerId,
    id: Number,
    name: Name,
    category: Category,
) -> Result<Seq<Event>, AccountError> {
    if !created_ledgers(log).contains(ledger@) {
        Err(AccountError::LedgerDoesnExist)
    } else {
        match open_outcome(ledger_accounts(log, ledger@), id) {
            Err(e) => Err(e),
            Ok(()) => Ok(seq![Event::AccountOpened { ledger, id, name, category }]),
        }
    }
}

/// The events that closing an account appends to `log`, or its error.
pub open spec fn close_account_outcome(log: Seq<Event>, ledger: LedgerId, id: Number) -> Result<
    Seq<Event>,
    AccountError,
> {
    if !created_ledgers(log).contains(ledger@) {
        Err(AccountError::LedgerDoesnExist)
    } else {
        if ledger_accounts(log, ledger@).contains(id.value()) {
            Ok(seq![Event::AccountClosed { ledger, account: id }])
        } else {
            Err(AccountError::NotExist)
        }
    }
}

/// The id that recording a transaction in `ledger` gets, or its error.
pub open spec fn record_outcome(
    log: Seq<Event>,
    ledger: LedgerId,
    legs: Seq<(Number, Balance)>,
) -> Result<JournalId, TransactionError> {
    if !created_ledgers(log).contains(ledger@) {
        Err(TransactionError::LedgerDoesnExist)
    } else {
        match transaction_outcome(
            ledger_accounts(log, ledger@),
            transaction_count(log, ledger@),
            legs,
        ) {
            Err(e) => Err(e),
            Ok(()) => Ok((transaction_count(log, ledger@) + 1) as u32),
        }
    }
}

/// Whether `e` may follow the events `before`: a ledger is created once;
/// accounts are opened and closed only in existing ledgers, opened only when
/// not open and closed only when open; a transaction is recorded only in an
/// existing ledger, with at least one leg, on open accounts, and balanced.
pub open spec fn event_allowed(before: Seq<Event>, e: Event) -> bool {
    match e {
        Event::LedgerCreated { id } => !created_ledgers(before).contains(id@),
        Event::AccountOpened { ledger, id, .. } => created_ledgers(before).contains(ledger@)
            && !ledger_accounts(before, ledger@).contains(id.value()),
        Event::AccountClosed { ledger, account } => created_ledgers(before).contains(ledger@)
            && ledger_accounts(before, ledger@).contains(account.value()),
        Event::Transaction { ledger, transactions, .. } => created_ledgers(before).contains(
            ledger@,
        ) && transaction_outcome(
            ledger_accounts(before, ledger@),
            transaction_count(before, ledger@),
            transactions@,
        ) is Ok,
        _ => true,
    }
}

/// Every event of the log was allowed when it was appended.
pub open spec fn well_formed_log(log: Seq<Event>) -> bool {
    forall|i: int| 0 <= i < log.len() ==> event_allowed(log.subrange(0, i), #[trigger] log[i])
}

/// Appending one allowed event keeps a log well formed.
proof fn lemma_append_allowed(log: Seq<Event>, e: Event)
    requires
        well_formed_log(log),
        event_allowed(log, e),
    ensures
        well_formed_log(log.push(e)),
{
    let next = log.push(e);
    assert forall|i: int| 0 <= i < next.len() implies event_allowed(
        next.subrange(0, i),
        #[trigger] next[i],
    ) by {
        if i < log.len() {
            assert(next.subrange(0, i) =~= log.subrange(0, i));
        } else {
            assert(next.subrange(0, i) =~= log);
        }
    }
}

/// The transaction count of a ledger never drops when events are appended.
proof fn lemma_count_grows(log: Seq<Event>, more: Seq<Event>, l: Seq<char>)
    ensures
        transaction_count(log + more, l) >= transaction_count(log, l),
    decreases more.len(),
{
    if more.len() > 0 {
        lemma_count_grows(log, more.drop_last(), l);
        assert((log + more).drop_last() =~= log + more.drop_last());
    }
}

/// Transaction ids of a ledger strictly increase: a transaction recorded
/// after another one in the same ledger, on a log that holds the earlier
/// transaction, gets a greater id.
pub proof fn lemma_transaction_ids_increase(
    log: Seq<Event>,
    ledger: LedgerId,
    legs1: Seq<(Number, Balance)>,
    recorded: Event,
    between: Seq<Event>,
    legs2: Seq<(Number, Balance)>,
    id1: JournalId,
    id2: JournalId,
)
    requires
        record_outcome(log, ledger, legs1) == Ok::<JournalId, TransactionError>(id1),
        recorded matches Event::Transaction { ledger: l, .. } && l@ == ledger@,
        record_outcome(log.push(recorded) + between, ledger, legs2) == Ok::<
            JournalId,
            TransactionError,
        >(id2),
    ensures
        id1 < id2,
{
    assert(log.push(recorded).drop_last() =~= log);
    lemma_count_grows(log.push(recorded), between, ledger@);
}

/// The handler no longer takes commands.
#[derive(Debug, Clone, Copy, PartialEq, Eq, Structural)]
pub enum MailboxProcessorError {
    MailboxProcessTerminated,
}

impl MailboxProcessorError {
    pub fn message(&self) -> (r: String)
        ensures
            r@ == "Could not send message to mailbox process"@,
    {
        String::from_str("Could not send message to mailbox process")
    }
}

/// Applies commands to a log, one at a time.
pub struct CommandHandler<T> {
    store_handle: T,
}

impl<T: EventStorage<Event>> CommandHandler<T> {
    /// The log of the handler.
    pub closed spec fn log(&self) -> Seq<Event> {
        self.store_handle.events()
    }

    pub fn new(store_handle: T) -> (r: Self)
        ensures
            r.log() == store_handle.events(),
            store_handle.events().len() == 0 ==> well_formed_log(r.log()),
    {
        CommandHandler { store_handle }
    }

    /// The log, for reading.
    pub fn store(&self) -> (r: &T)
        ensures
            r.events() == self.log(),
    {
        &self.store_handle
    }

    /// Create a ledger.
    pub fn create_ledger(&mut self, id: LedgerId) -> (r: Result<(), LedgerError>)
        ensures
            match create_ledger_outcome(old(self).log(), id) {
                Ok(new) => r is Ok && final(self).log() == old(self).log() + new,
                Err(e) => r == Err::<(), LedgerError>(e) && final(self).log() == old(self).log(),
            },
            well_formed_log(old(self).log()) ==> well_formed_log(final(self).log()),
    {
        let mut resolver = LedgerResolver::new(self.store_handle.all());
        match resolver.create(id) {
            Ok(events) => {
                proof {
                    if well_formed_log(self.log()) {
                        lemma_append_allowed(self.log(), events@[0]);
                        assert(self.log().push(events@[0]) =~= self.log() + events@);
                    }
                }
                self.store_handle.extend(events);
                Ok(())
            },
            Err(e) => Err(e),
        }
    }

    /// Open an account in a ledger.
    pub fn create_account(
        &mut self,
        ledger: LedgerId,
        id: Number,
        name: Name,
        category: Category,
    ) -> (r: Result<(), AccountError>)
        ensures
            match create_account_outcome(old(self).log(), ledger, id, name, category) {
                Ok(new) => r is Ok && final(self).log() == old(self).log() + new,
                Err(e) => r == Err::<(), AccountError>(e) && final(self).log() == old(self).log(),
            },
            well_formed_log(old(self).log()) ==> well_formed_log(final(self).log()),
    {
        match Ledger::new(ledger, self.store_handle.all()) {
            None => Err(AccountError::LedgerDoesnExist),
            Some(mut l) => match l.open_account(id, name, category) {
                Ok(events) => {
                    proof {
                        if well_formed_log(self.log()) {
                            lemma_append_allowed(self.log(), events@[0]);
                            assert(self.log().push(events@[0]) =~= self.log() + events@);
                        }
                    }
                    self.store_handle.extend(events);
                    Ok(())
                },
                Err(e) => Err(e),
            },
        }
    }

    /// Close an account of a ledger.
    pub fn close_account(&mut self, ledger: LedgerId, id: Number) -> (r: Result<(), AccountError>)
        ensures
            match close_account_outcome(old(self).log(), ledger, id) {
                Ok(new) => r is Ok && final(self).log() == old(self).log() + new,
                Err(e) => r == Err::<(), AccountError>(e) && final(self).log() == old(self).log(),
            },
            well_formed_log(old(self).log()) ==> well_formed_log(final(self).log()),
    {
        match Ledger::new(ledger, self.store_handle.all()) {
            None => Err(AccountError::LedgerDoesnExist),
            Some(mut l) => match l.close_account(id) {
                Ok(events) => {
                    proof {
                        if well_formed_log(self.log()) {
                            lemma_append_allowed(self.log(), events@[0]);
                            assert(self.log().push(events@[0]) =~= self.log() + events@);
                        }
                    }
                    self.store_handle.extend(events);
                    Ok(())
                },
                Err(e) => Err(e),
            },
        }
    }

    /// Record a transaction in a ledger; on success its id is returned: the
    /// number of transactions of the ledger, this one included.
    pub fn record_transaction(
        &mut self,
        ledger: LedgerId,
        description: String,
        transactions: Vec<(Number, Balance)>,
        date: Date,
    ) -> (r: Result<JournalId, TransactionError>)
        ensures
            r == record_outcome(old(self).log(), ledger, transactions@),
            r is Err ==> final(self).log() == old(self).log(),
            r is Ok ==> {
                &&& final(self).log().len() == old(self).log().len() + 1
                &&& final(self).log().subrange(0, old(self).log().len() as int) == old(self).log()
                &&& final(self).log().last() matches Event::Transaction {
                    ledger: l,
                    description: d,
                    date: t,
                    transactions: legs,
                } && l == ledger && d == description && t == date && legs@ == transactions@
            },
            well_formed_log(old(self).log()) ==> well_formed_log(final(self).log()),
    {
        match Ledger::new(ledger, self.store_handle.all()) {
            None => Err(TransactionError::LedgerDoesnExist),
            Some(mut l) => {
                let count = l.transaction_count();
                match l.transaction(description, transactions.as_slice(), date) {
                    Ok(events) => {
                        let ghost before = self.log();
                        proof {
                            if well_formed_log(before) {
                                lemma_append_allowed(before, events@[0]);
                                assert(before.push(events@[0]) =~= before + events@);
                            }
                        }
                        self.store_handle.extend(events);
                        assert(self.log().subrange(0, before.len() as int) =~= before);
                        Ok((count + 1) as u32)
                    },
                    Err(e) => Err(e),
                }
            },
        }
    }
}

} // verus!
