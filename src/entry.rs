//! Accounts, the chart of accounts, and journals of debit and credit lines.

use crate::account::{Category, Name, Number};
use crate::balance::{Balance, Transaction, TransactionMarker};
use crate::date::Date;
use crate::error::JournalValidationError;
use crate::legs::{credit_total, debit_total, totals};
use std::collections::BTreeMap;
use vstd::prelude::*;
use vstd::std_specs::btree::increasing_seq;
use vstd::std_specs::cmp::OrdSpec;
use vstd::std_specs::iter::IteratorSpec;

verus! {

/// An account with a number, a name and a category.
#[derive(Debug, PartialEq, Eq, PartialOrd, Ord)]
pub struct Account {
    number: Number,
    name: Name,
    category: Category,
}

impl Clone for Account {
    fn clone(&self) -> (r: Self)
        ensures
            r == *self,
    {
        Account { number: self.number, name: self.name.clone(), category: self.category }
    }
}

impl Account {
    pub closed spec fn spec_number(&self) -> Number {
        self.number
    }

    pub closed spec fn spec_name(&self) -> Name {
        self.name
    }

    pub closed spec fn spec_category(&self) -> Category {
        self.category
    }

    pub fn new(number: Number, name: Name, element: Category) -> (r: Self)
        ensures
            r.spec_number() == number,
            r.spec_name() == name,
            r.spec_category() == element,
    {
        Account { number, name, category: element }
    }

    pub fn number(&self) -> (r: &Number)
        ensures
            *r == self.spec_number(),
    {
        &self.number
    }

    pub fn name(&self) -> (r: &Name)
        ensures
            *r == self.spec_name(),
    {
        &self.name
    }

    pub fn category(&self) -> (r: &Category)
        ensures
            *r == self.spec_category(),
    {
        &self.category
    }

    /// Whether both accounts have the same number, name and category.
    pub fn same(&self, other: &Account) -> (r: bool)
        ensures
            r == (self.spec_number() == other.spec_number() && self.spec_name()@
                == other.spec_name()@ && self.spec_category() == other.spec_category()),
    {
        self.number == other.number && self.category == other.category
            && crate::text::same_text(self.name.as_str(), other.name.as_str())
    }
}

/// The accounts of a chart, one per number, in order of number.
#[derive(Debug)]
pub struct Chart {
    chart: BTreeMap<u32, Account>,
}

impl View for Chart {
    type V = Map<u32, Account>;

    closed spec fn view(&self) -> Map<u32, Account> {
        self.chart@
    }
}

impl Clone for Chart {
    fn clone(&self) -> (r: Self)
        ensures
            r@ == self@,
    {
        Chart { chart: self.chart.clone() }
    }
}

impl Chart {
    /// Every account is kept under its own number.
    pub open spec fn wf(&self) -> bool {
        forall|k: u32| #[trigger] self@.contains_key(k) ==> self@[k].spec_number().value() == k
    }

    pub fn new() -> (r: Self)
        ensures
            r@ == Map::<u32, Account>::empty(),
            r.wf(),
    {
        Chart { chart: BTreeMap::new() }
    }

    /// Insert an account under its number. Where an account with the same
    /// number is present it is replaced and returned; otherwise `None` is
    /// returned.
    pub fn insert(&mut self, account: Account) -> (r: Option<Account>)
        requires
            old(self).wf(),
        ensures
            final(self).wf(),
            final(self)@ == old(self)@.insert(account.spec_number().value(), account),
            match r {
                Some(a) => old(self)@.contains_key(account.spec_number().value()) && a == old(
                    self,
                )@[account.spec_number().value()],
                None => !old(self)@.contains_key(account.spec_number().value()),
            },
    {
        broadcast use {vstd::std_specs::btree::group_btree_axioms, vstd::laws_cmp::group_laws_cmp};

        let key = account.number.number();
        self.chart.insert(key, account)
    }

    /// The number of accounts.
    pub fn len(&self) -> (r: usize)
        ensures
            r == self@.len(),
    {
        broadcast use {vstd::std_specs::btree::group_btree_axioms, vstd::laws_cmp::group_laws_cmp};

        self.chart.len()
    }

    /// The accounts in order of increasing number.
    pub fn iter(&self) -> (r: std::collections::btree_map::Values<'_, u32, Account>)
        ensures
            exists|keys: Seq<u32>|
                {
                    &&& forall|i: int, j: int| 0 <= i < j < keys.len() ==> keys[i] < keys[j]
                    &&& keys.to_set() == self@.dom()
                    &&& r.remaining() == keys.map(|i: int, k: u32| &self@[k])
                },
    {
        broadcast use {vstd::std_specs::btree::group_btree_axioms, vstd::laws_cmp::group_laws_cmp};

        let r = self.chart.values();
        proof {
            let keys = choose|keys: Seq<u32>|
                {
                    &&& increasing_seq(keys)
                    &&& keys.to_set() == self@.dom()
                    &&& keys.no_duplicates()
                    &&& r.remaining() == keys.map(|i: int, k: u32| &self@[k])
                };
            assert forall|i: int, j: int| 0 <= i < j < keys.len() implies keys[i] < keys[j] by {
                assert(keys[i].cmp_spec(&keys[j]) is Less);
            }
        }
        r
    }
}

/// A line of a journal: one account debited or credited.
#[derive(Debug, Clone, Copy, PartialEq, Eq)]
pub struct JournalEntry<'a> {
    account: &'a Account,
    pub(crate) transaction: Balance,
}

impl<'a> JournalEntry<'a> {
    pub closed spec fn spec_account(&self) -> Account {
        *self.account
    }

    pub closed spec fn spec_balance(&self) -> Balance {
        self.transaction
    }

    pub fn new<T: TransactionMarker>(account: &'a Account, transaction: T) -> (r: Self)
        ensures
            r.spec_account() == *account,
            r.spec_balance() == transaction.spec_balance(),
    {
        JournalEntry { account, transaction: transaction.into_balance() }
    }

    /// The account that is affected by this line.
    pub fn account(&self) -> (r: &Account)
        ensures
            *r == self.spec_account(),
    {
        self.account
    }

    /// The debit or credit of this line.
    pub fn balance(&self) -> (r: &Balance)
        ensures
            *r == self.spec_balance(),
    {
        &self.transaction
    }
}

/// The account number and balance of each line.
pub open spec fn entry_legs(s: Seq<JournalEntry>) -> Seq<(Number, Balance)> {
    s.map_values(|e: JournalEntry| (e.spec_account().spec_number(), e.spec_balance()))
}

#[derive(Debug, Clone, PartialEq, Eq)]
struct EntryDetails {
    date: Date,
    description: Option<String>,
}

/// The text of an optional description.
pub open spec fn opt_text(o: Option<String>) -> Option<Seq<char>> {
    match o {
        Some(s) => Some(s@),
        None => None,
    }
}

/// An entry into the bookkeeping: the accounts debited and credited, with
/// the date and a description.
#[derive(Debug, Clone)]
pub struct Journal<'a> {
    details: EntryDetails,
    entries: Vec<JournalEntry<'a>>,
}

impl<'a> Journal<'a> {
    pub closed spec fn spec_date(&self) -> Date {
        self.details.date
    }

    pub closed spec fn spec_description(&self) -> Option<String> {
        self.details.description
    }

    pub closed spec fn lines(&self) -> Seq<JournalEntry<'a>> {
        self.entries@
    }

    /// An empty journal of the given date, without a description.
    pub fn new(date: Date) -> (r: Self)
        ensures
            r.spec_date() == date,
            r.spec_description() is None,
            r.lines() == Seq::<JournalEntry<'a>>::empty(),
    {
        Journal { details: EntryDetails { date, description: None }, entries: Vec::new() }
    }

    pub fn set_description(&mut self, description: String)
        ensures
            final(self).spec_description() == Some(description),
            final(self).spec_date() == old(self).spec_date(),
            final(self).lines() == old(self).lines(),
    {
        self.details.description = Some(description);
    }

    pub fn description(&self) -> (r: Option<&String>)
        ensures
            match r {
                Some(s) => self.spec_description() == Some(*s),
                None => self.spec_description() is None,
            },
    {
        self.details.description.as_ref()
    }

    pub fn date(&self) -> (r: &Date)
        ensures
            *r == self.spec_date(),
    {
        &self.details.date
    }

    /// Add a line debiting or crediting `account`.
    pub fn push<T: TransactionMarker>(&mut self, account: &'a Account, transaction: T)
        ensures
            final(self).lines().len() == old(self).lines().len() + 1,
            final(self).lines().drop_last() == old(self).lines(),
            final(self).lines().last().spec_account() == *account,
            final(self).lines().last().spec_balance() == transaction.spec_balance(),
            final(self).spec_date() == old(self).spec_date(),
            final(self).spec_description() == old(self).spec_description(),
    {
        self.entries.push(JournalEntry::new(account, transaction));
        assert(self.entries@.drop_last() =~= old(self).entries@);
    }

    pub fn as_slice(&self) -> (r: &[JournalEntry<'a>])
        ensures
            r@ == self.lines(),
    {
        self.entries.as_slice()
    }

    pub fn iter(&self) -> (r: std::slice::Iter<'_, JournalEntry<'a>>)
        ensures
            r.remaining() == self.lines().as_ref(),
    {
        self.entries.iter()
    }

    /// Accept the journal where its debits and credits are equal and fit in a
    /// `u32`. A total that does not fit is a failure of its own, reported by
    /// [`JournalValidationError::is_overflow`]; otherwise the error holds both
    /// totals.
    pub fn validate(self) -> (r: Result<ValidatedJournal<'a>, JournalValidationError>)
        ensures
            ({
                let d = debit_total(entry_legs(self.lines()));
                let c = credit_total(entry_legs(self.lines()));
                &&& (d > u32::MAX || c > u32::MAX) ==> (r matches Err(e) && e.spec_overflow()
                    && e.spec_debit().spec_amount() == 0 && e.spec_credit().spec_amount() == 0)
                &&& (d <= u32::MAX && c <= u32::MAX && d == c) ==> (r matches Ok(v) && v.lines()
                    == self.lines() && v.spec_date() == self.spec_date() && v.spec_description()
                    == self.spec_description())
                &&& (d <= u32::MAX && c <= u32::MAX && d != c) ==> (r matches Err(e)
                    && !e.spec_overflow() && e.spec_debit().spec_amount() == d
                    && e.spec_credit().spec_amount() == c)
            }),
    {
        let mut legs: Vec<(Number, Balance)> = Vec::new();
        let mut i: usize = 0;
        while i < self.entries.len()
            invariant
                i <= self.entries@.len(),
                legs@ == entry_legs(self.entries@.subrange(0, i as int)),
            decreases self.entries@.len() - i,
        {
            legs.push((self.entries[i].account.number, self.entries[i].transaction));
            assert(entry_legs(self.entries@.subrange(0, i + 1)) =~= entry_legs(
                self.entries@.subrange(0, i as int),
            ).push((self.entries@[i as int].spec_account().spec_number(), self.entries@[i as int].spec_balance())));
            i = i + 1;
        }
        assert(self.entries@.subrange(0, i as int) =~= self.entries@);
        let (debit, credit) = totals(legs.as_slice());
        if debit > 0xffff_ffff || credit > 0xffff_ffff {
            return Err(
                JournalValidationError {
                    debit: Transaction { amount: 0, phantom: core::marker::PhantomData },
                    credit: Transaction { amount: 0, phantom: core::marker::PhantomData },
                    overflow: true,
                },
            );
        }
        if debit == credit {
            return Ok(ValidatedJournal { details: self.details, entries: self.entries });
        }
        Err(
            JournalValidationError {
                debit: Transaction { amount: debit as u32, phantom: core::marker::PhantomData },
                credit: Transaction { amount: credit as u32, phantom: core::marker::PhantomData },
                overflow: false,
            },
        )
    }
}

/// A journal whose debits and credits are equal.
#[derive(Debug, Clone, PartialEq, Eq)]
pub struct ValidatedJournal<'b> {
    details: EntryDetails,
    entries: Vec<JournalEntry<'b>>,
}

impl<'b> ValidatedJournal<'b> {
    pub closed spec fn spec_date(&self) -> Date {
        self.details.date
    }

    pub closed spec fn spec_description(&self) -> Option<String> {
        self.details.description
    }

    pub closed spec fn lines(&self) -> Seq<JournalEntry<'b>> {
        self.entries@
    }

    pub fn description(&self) -> (r: Option<&String>)
        ensures
            match r {
                Some(s) => self.spec_description() == Some(*s),
                None => self.spec_description() is None,
            },
    {
        self.details.description.as_ref()
    }

    pub fn date(&self) -> (r: &Date)
        ensures
            *r == self.spec_date(),
    {
        &self.details.date
    }

    pub fn as_slice(&self) -> (r: &[JournalEntry<'b>])
        ensures
            r@ == self.lines(),
    {
        self.entries.as_slice()
    }

    pub fn iter(&self) -> (r: std::slice::Iter<'_, JournalEntry<'b>>)
        ensures
            r.remaining() == self.lines().as_ref(),
    {
        self.entries.iter()
    }
}

/// The journals of a period, in the order they were added.
#[derive(Debug)]
pub struct DayBook<'a> {
    journals: Vec<Journal<'a>>,
}

impl<'a> DayBook<'a> {
    pub closed spec fn spec_journals(&self) -> Seq<Journal<'a>> {
        self.journals@
    }

    pub fn new() -> (r: Self)
        ensures
            r.spec_journals() == Seq::<Journal<'a>>::empty(),
    {
        DayBook { journals: Vec::new() }
    }

    pub fn push(&mut self, journal: Journal<'a>)
        ensures
            final(self).spec_journals() == old(self).spec_journals().push(journal),
    {
        self.journals.push(journal);
    }

    pub fn as_slice(&self) -> (r: &[Journal<'a>])
        ensures
            r@ == self.spec_journals(),
    {
        self.journals.as_slice()
    }
}

} // verus!
