//! The ledger of one account: the debits and credits that journals post to it.

use crate::balance::Balance;
use crate::date::Date;
use crate::entry::{Account, JournalEntry, ValidatedJournal};
use vstd::prelude::*;
use vstd::std_specs::iter::IteratorSpec;

verus! {

/// One debit or credit posted to an account on a date.
#[derive(Debug, Clone, Copy, PartialEq, Eq)]
pub struct LedgerEntry {
    date: Date,
    transaction: Balance,
}

impl LedgerEntry {
    pub closed spec fn spec_date(&self) -> Date {
        self.date
    }

    pub closed spec fn spec_transaction(&self) -> Balance {
        self.transaction
    }

    pub fn date(&self) -> (r: &Date)
        ensures
            *r == self.spec_date(),
    {
        &self.date
    }

    pub fn transaction(&self) -> (r: &Balance)
        ensures
            *r == self.spec_transaction(),
    {
        &self.transaction
    }
}

/// Both accounts have the same number, name and category.
pub open spec fn same_account(a: Account, b: Account) -> bool {
    a.spec_number() == b.spec_number() && a.spec_name()@ == b.spec_name()@ && a.spec_category()
        == b.spec_category()
}

/// The entries that the lines of a journal of `date` post to `account`, in
/// order.
pub closed spec fn postings(account: Account, date: Date, lines: Seq<JournalEntry>) -> Seq<
    LedgerEntry,
>
    decreases lines.len(),
{
    if lines.len() == 0 {
        Seq::empty()
    } else {
        let before = postings(account, date, lines.drop_last());
        if same_account(lines.last().spec_account(), account) {
            before.push(LedgerEntry { date, transaction: lines.last().spec_balance() })
        } else {
            before
        }
    }
}

/// The postings of one account.
#[derive(Debug)]
pub struct Ledger<'a> {
    account: &'a Account,
    entries: Vec<LedgerEntry>,
}

impl<'a> Ledger<'a> {
    pub closed spec fn spec_account(&self) -> Account {
        *self.account
    }

    pub closed spec fn spec_entries(&self) -> Seq<LedgerEntry> {
        self.entries@
    }

    /// An empty ledger of `account`.
    pub fn new(account: &'a Account) -> (r: Self)
        ensures
            r.spec_account() == *account,
            r.spec_entries() == Seq::<LedgerEntry>::empty(),
    {
        Ledger { account, entries: Vec::new() }
    }

    /// Post the lines of `journal` that concern this ledger's account, and
    /// return how many there were.
    pub fn push(&mut self, journal: &ValidatedJournal) -> (r: usize)
        ensures
            final(self).spec_account() == old(self).spec_account(),
            final(self).spec_entries() == old(self).spec_entries() + postings(
                old(self).spec_account(),
                journal.spec_date(),
                journal.lines(),
            ),
            r == postings(old(self).spec_account(), journal.spec_date(), journal.lines()).len(),
    {
        let date = *journal.date();
        let lines = journal.as_slice();
        let mut count: usize = 0;
        let mut i: usize = 0;
        while i < lines.len()
            invariant
                i <= lines@.len(),
                lines@ == journal.lines(),
                date == journal.spec_date(),
                self.spec_account() == old(self).spec_account(),
                self.spec_entries() == old(self).spec_entries() + postings(
                    old(self).spec_account(),
                    date,
                    lines@.subrange(0, i as int),
                ),
                count == postings(old(self).spec_account(), date, lines@.subrange(0, i as int)).len(),
                count <= i,
            decreases lines@.len() - i,
        {
            assert(lines@.subrange(0, i + 1).drop_last() =~= lines@.subrange(0, i as int));
            let ghost before = self.entries@;
            if lines[i].account().same(self.account) {
                self.entries.push(LedgerEntry { date, transaction: *lines[i].balance() });
                count = count + 1;
            }
            assert(self.entries@ =~= old(self).spec_entries() + postings(
                old(self).spec_account(),
                date,
                lines@.subrange(0, i + 1),
            ));
            i = i + 1;
        }
        assert(lines@.subrange(0, i as int) =~= lines@);
        count
    }

    /// The entries in the order they were posted.
    pub fn iter(&self) -> (r: std::slice::Iter<'_, LedgerEntry>)
        ensures
            r.remaining() == self.spec_entries().as_ref(),
    {
        self.entries.iter()
    }
}

} // verus!
