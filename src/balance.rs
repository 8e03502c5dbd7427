//! Debit and credit amounts.
//!
//! A [Balance] is the amount of one leg of a transaction, on either the debit
//! or the credit side. A set of legs balances when its debits and its credits
//! sum to the same total.

use core::marker::PhantomData;
use vstd::prelude::*;

verus! {

/// Marker for the debit side.
#[derive(Debug, Clone, Copy, PartialEq, Eq, PartialOrd, Ord)]
pub struct Debit;

/// Marker for the credit side.
#[derive(Debug, Clone, Copy, PartialEq, Eq, PartialOrd, Ord)]
pub struct Credit;

/// Data for a single transaction holding the entry type and amount.
#[derive(Debug, PartialEq, Eq, PartialOrd, Ord)]
pub struct Transaction<T> {
    pub(crate) amount: u32,
    pub(crate) phantom: PhantomData<T>,
}

impl<T> Clone for Transaction<T> {
    fn clone(&self) -> (r: Self)
        ensures
            r == *self,
    {
        Transaction { amount: self.amount, phantom: PhantomData }
    }
}

impl<T> Copy for Transaction<T> {

}

/// Sum of the amounts of a sequence of transactions.
pub open spec fn total<T>(s: Seq<Transaction<T>>) -> nat
    decreases s.len(),
{
    if s.len() == 0 {
        0
    } else {
        total(s.drop_last()) + s.last().spec_amount() as nat
    }
}

impl<T> Transaction<T> {
    pub open(crate) spec fn spec_amount(self) -> u32 {
        self.amount
    }

    pub fn amount(&self) -> (r: u32)
        ensures
            r == self.spec_amount(),
    {
        self.amount
    }

    /// Apply `f` to the amount.
    pub fn map<F>(self, f: F) -> (r: Self) where F: Fn(u32) -> u32
        requires
            f.requires((self.spec_amount(),)),
        ensures
            f.ensures((self.spec_amount(),), r.spec_amount()),
    {
        Transaction { amount: f(self.amount), phantom: PhantomData }
    }

    /// The sum of the two amounts, or `None` where it does not fit in a `u32`.
    pub fn checked_add(self, rhs: Self) -> (r: Option<Self>)
        ensures
            r is Some <==> self.spec_amount() + rhs.spec_amount() <= u32::MAX,
            r matches Some(t) ==> t.spec_amount() == self.spec_amount() + rhs.spec_amount(),
    {
        match self.amount.checked_add(rhs.amount) {
            Some(amount) => Some(Transaction { amount, phantom: PhantomData }),
            None => None,
        }
    }

    /// The sum of all amounts, or `None` where it does not fit in a `u32`.
    pub fn sum(items: &[Transaction<T>]) -> (r: Option<Self>)
        ensures
            r is Some <==> total(items@) <= u32::MAX,
            r matches Some(t) ==> t.spec_amount() == total(items@),
    {
        let mut acc: u32 = 0;
        let mut i: usize = 0;
        while i < items.len()
            invariant
                i <= items@.len(),
                acc == total(items@.subrange(0, i as int)),
            decreases items@.len() - i,
        {
            assert(items@.subrange(0, i + 1).drop_last() =~= items@.subrange(0, i as int));
            match acc.checked_add(items[i].amount) {
                Some(next) => {
                    acc = next;
                },
                None => {
                    proof {
                        lemma_total_prefix_grows(items@, i as int + 1, items@.len() as int);
                        assert(items@.subrange(0, items@.len() as int) =~= items@);
                    }
                    return None;
                },
            }
            i = i + 1;
        }
        assert(items@.subrange(0, i as int) =~= items@);
        Some(Transaction { amount: acc, phantom: PhantomData })
    }
}

/// Totals of longer prefixes are at least those of shorter ones.
proof fn lemma_total_prefix_grows<T>(s: Seq<Transaction<T>>, i: int, j: int)
    requires
        0 <= i <= j <= s.len(),
    ensures
        total(s.subrange(0, i)) <= total(s.subrange(0, j)),
    decreases j - i,
{
    if i < j {
        lemma_total_prefix_grows(s, i, j - 1);
        assert(s.subrange(0, j).drop_last() =~= s.subrange(0, j - 1));
    }
}

impl Transaction<Debit> {
    /// Create a new debit transaction; a zero amount is refused.
    pub fn debit(amount: u32) -> (r: Option<Self>)
        ensures
            r is Some <==> amount != 0,
            r matches Some(t) ==> t.spec_amount() == amount,
    {
        if amount == 0 {
            None
        } else {
            Some(Transaction { amount, phantom: PhantomData })
        }
    }
}

impl Transaction<Credit> {
    /// Create a new credit transaction; a zero amount is refused.
    pub fn credit(amount: u32) -> (r: Option<Self>)
        ensures
            r is Some <==> amount != 0,
            r matches Some(t) ==> t.spec_amount() == amount,
    {
        if amount == 0 {
            None
        } else {
            Some(Transaction { amount, phantom: PhantomData })
        }
    }
}

/// A balance is either a debit or a credit transaction.
#[derive(Debug, Clone, Copy, PartialEq, Eq, PartialOrd, Ord)]
pub enum Balance {
    Debit(Transaction<Debit>),
    Credit(Transaction<Credit>),
}

impl Balance {
    /// The unsigned amount of either side.
    pub open spec fn spec_amount(self) -> u32 {
        match self {
            Balance::Debit(t) => t.spec_amount(),
            Balance::Credit(t) => t.spec_amount(),
        }
    }

    /// Create a new debit balance; a zero amount is refused.
    pub fn debit(amount: u32) -> (r: Option<Self>)
        ensures
            r is Some <==> amount != 0,
            r matches Some(b) ==> b is Debit && b.spec_amount() == amount,
    {
        match Transaction::debit(amount) {
            Some(t) => Some(Balance::Debit(t)),
            None => None,
        }
    }

    /// Create a new credit balance; a zero amount is refused.
    pub fn credit(amount: u32) -> (r: Option<Self>)
        ensures
            r is Some <==> amount != 0,
            r matches Some(b) ==> b is Credit && b.spec_amount() == amount,
    {
        match Transaction::credit(amount) {
            Some(t) => Some(Balance::Credit(t)),
            None => None,
        }
    }

    /// Get the amount of either the debit or credit.
    pub fn amount(&self) -> (r: u32)
        ensures
            r == self.spec_amount(),
    {
        match self {
            Balance::Debit(x) => x.amount(),
            Balance::Credit(x) => x.amount(),
        }
    }
}

impl From<Transaction<Debit>> for Balance {
    fn from(value: Transaction<Debit>) -> (r: Self) {
        Balance::Debit(value)
    }
}

impl vstd::std_specs::convert::FromSpecImpl<Transaction<Debit>> for Balance {
    open spec fn obeys_from_spec() -> bool {
        true
    }

    open spec fn from_spec(v: Transaction<Debit>) -> Self {
        Balance::Debit(v)
    }
}

impl From<Transaction<Credit>> for Balance {
    fn from(value: Transaction<Credit>) -> (r: Self) {
        Balance::Credit(value)
    }
}

impl vstd::std_specs::convert::FromSpecImpl<Transaction<Credit>> for Balance {
    open spec fn obeys_from_spec() -> bool {
        true
    }

    open spec fn from_spec(v: Transaction<Credit>) -> Self {
        Balance::Credit(v)
    }
}

/// A debit or credit transaction that knows which side it is on.
pub trait TransactionMarker: Sized {
    /// The balance this transaction stands for.
    spec fn spec_balance(self) -> Balance;

    fn into_balance(self) -> (r: Balance)
        ensures
            r == self.spec_balance(),
    ;
}

impl TransactionMarker for Transaction<Debit> {
    open spec fn spec_balance(self) -> Balance {
        Balance::Debit(self)
    }

    fn into_balance(self) -> (r: Balance) {
        Balance::Debit(self)
    }
}

impl TransactionMarker for Transaction<Credit> {
    open spec fn spec_balance(self) -> Balance {
        Balance::Credit(self)
    }

    fn into_balance(self) -> (r: Balance) {
        Balance::Credit(self)
    }
}

impl TransactionMarker for Balance {
    open spec fn spec_balance(self) -> Balance {
        self
    }

    fn into_balance(self) -> (r: Balance) {
        self
    }
}

/// Turn a debit or credit transaction into a [Balance] of the same side.
pub fn to_balance<T: TransactionMarker>(value: T) -> (r: Balance)
    ensures
        r == value.spec_balance(),
{
    value.into_balance()
}

/// Whether the balance is on the debit side.
pub fn is_debit(value: &Balance) -> (r: bool)
    ensures
        r == (*value is Debit),
{
    matches!(value, Balance::Debit(_))
}

/// Whether the balance is on the credit side.
pub fn is_credit(value: &Balance) -> (r: bool)
    ensures
        r == (*value is Credit),
{
    matches!(value, Balance::Credit(_))
}

/// The debit transactions of `s`, in order.
pub open spec fn debits_of(s: Seq<Balance>) -> Seq<Transaction<Debit>>
    decreases s.len(),
{
    if s.len() == 0 {
        Seq::empty()
    } else {
        match s.last() {
            Balance::Debit(t) => debits_of(s.drop_last()).push(t),
            Balance::Credit(_) => debits_of(s.drop_last()),
        }
    }
}

/// The credit transactions of `s`, in order.
pub open spec fn credits_of(s: Seq<Balance>) -> Seq<Transaction<Credit>>
    decreases s.len(),
{
    if s.len() == 0 {
        Seq::empty()
    } else {
        match s.last() {
            Balance::Credit(t) => credits_of(s.drop_last()).push(t),
            Balance::Debit(_) => credits_of(s.drop_last()),
        }
    }
}

/// Split balances into their debits and credits, keeping the order of each.
pub fn split(collection: Vec<Balance>) -> (r: (Vec<Transaction<Debit>>, Vec<Transaction<Credit>>))
    ensures
        r.0@ == debits_of(collection@),
        r.1@ == credits_of(collection@),
{
    let mut debits: Vec<Transaction<Debit>> = Vec::new();
    let mut credits: Vec<Transaction<Credit>> = Vec::new();
    let mut i: usize = 0;
    while i < collection.len()
        invariant
            i <= collection@.len(),
            debits@ == debits_of(collection@.subrange(0, i as int)),
            credits@ == credits_of(collection@.subrange(0, i as int)),
        decreases collection@.len() - i,
    {
        assert(collection@.subrange(0, i + 1).drop_last() =~= collection@.subrange(0, i as int));
        match collection[i] {
            Balance::Debit(t) => debits.push(t),
            Balance::Credit(t) => credits.push(t),
        }
        i = i + 1;
    }
    assert(collection@.subrange(0, i as int) =~= collection@);
    (debits, credits)
}

} // verus!
