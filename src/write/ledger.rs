//! Ledger namespaces, and the ledger aggregate that records accounts and
//! transactions within one of them.

use crate::account::{Category, Name, Number};
use crate::balance::Balance;
use crate::date::Date;
use crate::error::{AccountError, LedgerError, TransactionError};
use crate::events::Event;
use crate::legs::{all_open, balanced, is_balanced};
use std::collections::HashSet;
use vstd::prelude::*;
use vstd::string::*;

verus! {

/// An ASCII letter or digit.
pub open spec fn is_ascii_alphanumeric(c: char) -> bool {
    ('a' <= c && c <= 'z') || ('A' <= c && c <= 'Z') || ('0' <= c && c <= '9')
}

/// A ledger id starts with an ASCII letter or digit, followed by any number of
/// ASCII letters, digits, `_` and `-`.
pub open spec fn is_ledger_id(s: Seq<char>) -> bool {
    &&& s.len() > 0
    &&& is_ascii_alphanumeric(s[0])
    &&& forall|i: int|
        1 <= i < s.len() ==> is_ascii_alphanumeric(#[trigger] s[i]) || s[i] == '_' || s[i] == '-'
}

/// The id of a ledger namespace: a string matching `[A-Za-z0-9][A-Za-z0-9_-]*`.
#[derive(Debug, PartialEq, Eq, PartialOrd, Ord, Hash)]
pub struct LedgerId(String);

impl View for LedgerId {
    type V = Seq<char>;

    closed spec fn view(&self) -> Seq<char> {
        self.0@
    }
}

impl Clone for LedgerId {
    fn clone(&self) -> (r: Self)
        ensures
            r == *self,
    {
        LedgerId(self.0.clone())
    }
}

impl LedgerId {
    /// A ledger id holding `id`, or `None` where `id` is not a valid ledger id.
    pub fn new(id: &str) -> (r: Option<Self>)
        ensures
            r is Some <==> is_ledger_id(id@),
            r matches Some(l) ==> l@ == id@,
    {
        let n = id.unicode_len();
        if n == 0 {
            return None;
        }
        let first = id.get_char(0);
        if !(('a' <= first && first <= 'z') || ('A' <= first && first <= 'Z') || ('0' <= first
            && first <= '9')) {
            return None;
        }
        let mut i: usize = 1;
        while i < n
            invariant
                n == id@.len(),
                1 <= i <= n,
                forall|k: int|
                    1 <= k < i ==> is_ascii_alphanumeric(#[trigger] id@[k]) || id@[k] == '_'
                        || id@[k] == '-',
            decreases n - i,
        {
            let c = id.get_char(i);
            if !(('a' <= c && c <= 'z') || ('A' <= c && c <= 'Z') || ('0' <= c && c <= '9') || c
                == '_' || c == '-') {
                return None;
            }
            i = i + 1;
        }
        Some(LedgerId(id.to_owned()))
    }

    /// The id as text.
    pub fn as_str(&self) -> (r: &str)
        ensures
            r@ == self@,
    {
        self.0.as_str()
    }

    /// Whether both ids hold the same text.
    pub fn same(&self, other: &LedgerId) -> (r: bool)
        ensures
            r == (self@ == other@),
    {
        crate::text::same_text(self.0.as_str(), other.0.as_str())
    }
}

/// The ids of the ledgers created in `log`.
pub open spec fn created_ledgers(log: Seq<Event>) -> Set<Seq<char>>
    decreases log.len(),
{
    if log.len() == 0 {
        Set::empty()
    } else {
        match log.last() {
            Event::LedgerCreated { id } => created_ledgers(log.drop_last()).insert(id@),
            _ => created_ledgers(log.drop_last()),
        }
    }
}

/// The effect of one event on the open accounts of ledger `l`.
pub open spec fn account_step(open: Set<u32>, e: Event, l: Seq<char>) -> Set<u32> {
    match e {
        Event::AccountOpened { ledger, id, .. } => if ledger@ == l {
            open.insert(id.value())
        } else {
            open
        },
        Event::AccountClosed { ledger, account } => if ledger@ == l {
            open.remove(account.value())
        } else {
            open
        },
        _ => open,
    }
}

/// The accounts open in ledger `l` after `log`: opening adds an account,
/// closing removes it, and events of other ledgers have no effect.
pub open spec fn open_accounts(log: Seq<Event>, l: Seq<char>) -> Set<u32>
    decreases log.len(),
{
    if log.len() == 0 {
        Set::empty()
    } else {
        account_step(open_accounts(log.drop_last(), l), log.last(), l)
    }
}

/// The accounts open in ledger `l` after `log`, replaying only the events
/// that follow the ledger's creation.
pub open spec fn ledger_accounts(log: Seq<Event>, l: Seq<char>) -> Set<u32>
    decreases log.len(),
{
    if log.len() == 0 {
        Set::empty()
    } else if created_ledgers(log.drop_last()).contains(l) {
        account_step(ledger_accounts(log.drop_last(), l), log.last(), l)
    } else {
        ledger_accounts(log.drop_last(), l)
    }
}

/// The number of transactions recorded in ledger `l` in `log` after the
/// ledger's creation.
pub open spec fn transaction_count(log: Seq<Event>, l: Seq<char>) -> nat
    decreases log.len(),
{
    if log.len() == 0 {
        0
    } else {
        transaction_count(log.drop_last(), l) + match log.last() {
            Event::Transaction { ledger, .. } => if ledger@ == l && created_ledgers(
                log.drop_last(),
            ).contains(l) {
                1nat
            } else {
                0nat
            },
            _ => 0nat,
        }
    }
}

/// The texts of the ids in `s`.
spec fn ids_of(s: Seq<LedgerId>) -> Set<Seq<char>> {
    Set::new(|t: Seq<char>| exists|i: int| 0 <= i < s.len() && #[trigger] s[i]@ == t)
}

proof fn lemma_ids_of_push(s: Seq<LedgerId>, x: LedgerId)
    ensures
        ids_of(s.push(x)) == ids_of(s).insert(x@),
{
    let t = s.push(x);
    assert(t[s.len() as int]@ == x@);
    assert forall|u: Seq<char>| ids_of(s).contains(u) implies ids_of(t).contains(u) by {
        let k = choose|k: int| 0 <= k < s.len() && #[trigger] s[k]@ == u;
        assert(t[k]@ == u);
    }
    assert(ids_of(t) =~= ids_of(s).insert(x@));
}

/// Keeps a tally of all ledgers that exist.
#[derive(Debug)]
pub struct LedgerResolver {
    ledgers: Vec<LedgerId>,
}

impl LedgerResolver {
    /// The ids of the known ledgers.
    pub closed spec fn known(&self) -> Set<Seq<char>> {
        ids_of(self.ledgers@)
    }

    /// Rebuild the set of ledgers from the log.
    pub fn new(events: &[Event]) -> (r: Self)
        ensures
            r.known() == created_ledgers(events@),
    {
        let mut ledgers: Vec<LedgerId> = Vec::new();
        let mut i: usize = 0;
        while i < events.len()
            invariant
                i <= events@.len(),
                (LedgerResolver { ledgers }).known() == created_ledgers(events@.subrange(0, i as int)),
            decreases events@.len() - i,
        {
            assert(events@.subrange(0, i + 1).drop_last() =~= events@.subrange(0, i as int));
            match &events[i] {
                Event::LedgerCreated { id } => {
                    proof {
                        lemma_ids_of_push(ledgers@, *id);
                    }
                    ledgers.push(id.clone());
                },
                _ => {},
            }
            i = i + 1;
        }
        assert(events@.subrange(0, i as int) =~= events@);
        LedgerResolver { ledgers }
    }

    /// Whether a ledger with this id exists.
    pub fn contains(&self, id: &str) -> (r: bool)
        ensures
            r == self.known().contains(id@),
    {
        let mut i: usize = 0;
        while i < self.ledgers.len()
            invariant
                i <= self.ledgers@.len(),
                forall|k: int| 0 <= k < i ==> self.ledgers@[k]@ != id@,
            decreases self.ledgers@.len() - i,
        {
            if crate::text::same_text(self.ledgers[i].as_str(), id) {
                assert(self.known().contains(id@)) by {
                    assert(self.ledgers@[i as int]@ == id@);
                }
                return true;
            }
            i = i + 1;
        }
        false
    }

    /// Create a new ledger; an id that is already known is refused.
    pub fn create(&mut self, id: LedgerId) -> (r: Result<Vec<Event>, LedgerError>)
        ensures
            old(self).known().contains(id@) ==> r == Err::<Vec<Event>, LedgerError>(
                LedgerError::AlreadyExists,
            ) && final(self).known() == old(self).known(),
            !old(self).known().contains(id@) ==> r is Ok && r->Ok_0@ == seq![
                Event::LedgerCreated { id },
            ] && final(self).known() == old(self).known().insert(id@),
    {
        if self.contains(id.as_str()) {
            return Err(LedgerError::AlreadyExists);
        }
        proof {
            lemma_ids_of_push(self.ledgers@, id);
        }
        self.ledgers.push(id.clone());
        Ok(vec![Event::LedgerCreated { id }])
    }

    /// The known ledger with this id, if any.
    pub fn get(&self, id: &str) -> (r: Option<LedgerId>)
        ensures
            r is Some <==> self.known().contains(id@),
            r matches Some(l) ==> l@ == id@,
    {
        let mut i: usize = 0;
        while i < self.ledgers.len()
            invariant
                i <= self.ledgers@.len(),
                forall|k: int| 0 <= k < i ==> self.ledgers@[k]@ != id@,
            decreases self.ledgers@.len() - i,
        {
            if crate::text::same_text(self.ledgers[i].as_str(), id) {
                assert(self.known().contains(id@)) by {
                    assert(self.ledgers@[i as int]@ == id@);
                }
                return Some(self.ledgers[i].clone());
            }
            i = i + 1;
        }
        None
    }
}

/// The outcome of recording `legs` in a ledger with the `open` accounts and
/// `count` transactions so far.
pub open spec fn transaction_outcome(
    open: Set<u32>,
    count: nat,
    legs: Seq<(Number, Balance)>,
) -> Result<(), TransactionError> {
    if legs.len() == 0 {
        Err(TransactionError::EmptyTransaction)
    } else if !is_balanced(legs) {
        Err(TransactionError::ImbalancedTranasactions)
    } else if !all_open(legs, open) {
        Err(TransactionError::AccountDoesntExist)
    } else if count >= u32::MAX {
        Err(TransactionError::JournalLimitReached)
    } else {
        Ok(())
    }
}

/// The accounts and transactions of one ledger, rebuilt from the log.
#[derive(Debug)]
pub struct Ledger {
    id: LedgerId,
    chart: HashSet<u32>,
    transactions: usize,
}

impl Ledger {
    /// The id of the ledger.
    pub closed spec fn ledger_id(&self) -> LedgerId {
        self.id
    }

    /// The numbers of the open accounts.
    pub closed spec fn accounts(&self) -> Set<u32> {
        self.chart@
    }

    /// The number of transactions recorded so far.
    pub closed spec fn recorded(&self) -> nat {
        self.transactions as nat
    }

    /// The ledger was created in `log` and holds the state that replaying
    /// `log` from that creation on gives.
    pub open spec fn replays(&self, log: Seq<Event>) -> bool {
        &&& created_ledgers(log).contains(self.ledger_id()@)
        &&& self.accounts() == ledger_accounts(log, self.ledger_id()@)
        &&& self.recorded() == transaction_count(log, self.ledger_id()@)
    }

    /// Rebuild the ledger `id` from the events that follow its creation, or
    /// `None` where the log never created it.
    pub fn new(id: LedgerId, events: &[Event]) -> (r: Option<Self>)
        ensures
            r is Some <==> created_ledgers(events@).contains(id@),
            r matches Some(l) ==> l.ledger_id() == id && l.replays(events@),
    {
        broadcast use vstd::std_specs::hash::group_hash_axioms;

        let mut exists = false;
        let mut chart: HashSet<u32> = HashSet::new();
        let mut transactions: usize = 0;
        let mut i: usize = 0;
        while i < events.len()
            invariant
                i <= events@.len(),
                transactions <= i,
                exists == created_ledgers(events@.subrange(0, i as int)).contains(id@),
                chart@ == ledger_accounts(events@.subrange(0, i as int), id@),
                transactions == transaction_count(events@.subrange(0, i as int), id@),
            decreases events@.len() - i,
        {
            assert(events@.subrange(0, i + 1).drop_last() =~= events@.subrange(0, i as int));
            match &events[i] {
                Event::LedgerCreated { id: created } => {
                    if created.same(&id) {
                        exists = true;
                    }
                },
                Event::AccountOpened { ledger, id: number, .. } => {
                    if exists && ledger.same(&id) {
                        chart.insert(number.number());
                    }
                },
                Event::AccountClosed { ledger, account } => {
                    if exists && ledger.same(&id) {
                        chart.remove(&account.number());
                    }
                },
                Event::Transaction { ledger, .. } => {
                    if exists && ledger.same(&id) {
                        transactions = transactions + 1;
                    }
                },
                _ => {},
            }
            i = i + 1;
        }
        assert(events@.subrange(0, i as int) =~= events@);
        if exists {
            Some(Ledger { id, chart, transactions })
        } else {
            None
        }
    }

    /// The number of transactions recorded so far; the next transaction gets
    /// this number plus one as its id.
    pub fn transaction_count(&self) -> (r: usize)
        ensures
            r == self.recorded(),
    {
        self.transactions
    }

    /// Open an account; an account that is already open is refused. An
    /// account that was closed may be opened again.
    pub fn open_account(&mut self, number: Number, name: Name, category: Category) -> (r: Result<
        Vec<Event>,
        AccountError,
    >)
        ensures
            old(self).accounts().contains(number.value()) ==> r == Err::<Vec<Event>, AccountError>(
                AccountError::Opened(number.value()),
            ) && *final(self) == *old(self),
            !old(self).accounts().contains(number.value()) ==> r is Ok && r->Ok_0@ == seq![
                Event::AccountOpened { ledger: old(self).ledger_id(), id: number, name, category },
            ] && final(self).ledger_id() == old(self).ledger_id() && final(self).accounts()
                == old(self).accounts().insert(number.value()) && final(self).recorded()
                == old(self).recorded() && forall|log: Seq<Event>|
                old(self).replays(log) ==> #[trigger] final(self).replays(log + r->Ok_0@),
    {
        broadcast use vstd::std_specs::hash::group_hash_axioms;

        if self.chart.contains(&number.number()) {
            return Err(AccountError::Opened(number.number()));
        }
        self.chart.insert(number.number());
        let events = vec![Event::AccountOpened { ledger: self.id.clone(), id: number, name, category }];
        assert forall|log: Seq<Event>| old(self).replays(log) implies #[trigger] self.replays(
            log + events@,
        ) by {
            assert((log + events@).drop_last() =~= log);
        }
        Ok(events)
    }

    /// Close an open account; an account that is not open is refused.
    pub fn close_account(&mut self, id: Number) -> (r: Result<Vec<Event>, AccountError>)
        ensures
            !old(self).accounts().contains(id.value()) ==> r == Err::<Vec<Event>, AccountError>(
                AccountError::NotExist,
            ) && *final(self) == *old(self),
            old(self).accounts().contains(id.value()) ==> r is Ok && r->Ok_0@ == seq![
                Event::AccountClosed { ledger: old(self).ledger_id(), account: id },
            ] && final(self).ledger_id() == old(self).ledger_id() && final(self).accounts()
                == old(self).accounts().remove(id.value()) && final(self).recorded()
                == old(self).recorded() && forall|log: Seq<Event>|
                old(self).replays(log) ==> #[trigger] final(self).replays(log + r->Ok_0@),
    {
        broadcast use vstd::std_specs::hash::group_hash_axioms;

        if !self.chart.contains(&id.number()) {
            return Err(AccountError::NotExist);
        }
        self.chart.remove(&id.number());
        let events = vec![Event::AccountClosed { ledger: self.id.clone(), account: id }];
        assert forall|log: Seq<Event>| old(self).replays(log) implies #[trigger] self.replays(
            log + events@,
        ) by {
            assert((log + events@).drop_last() =~= log);
        }
        Ok(events)
    }

    /// Whether the legs balance and every leg refers to an open account.
    fn check_balance(&self, transactions: &[(Number, Balance)]) -> (r: Result<(), TransactionError>)
        ensures
            r == (if !is_balanced(transactions@) {
                Err(TransactionError::ImbalancedTranasactions)
            } else if !all_open(transactions@, self.accounts()) {
                Err(TransactionError::AccountDoesntExist)
            } else {
                Ok(())
            }),
    {
        broadcast use vstd::std_specs::hash::group_hash_axioms;

        if !balanced(transactions) {
            return Err(TransactionError::ImbalancedTranasactions);
        }
        let mut i: usize = 0;
        while i < transactions.len()
            invariant
                i <= transactions@.len(),
                is_balanced(transactions@),
                forall|k: int| 0 <= k < i ==> self.accounts().contains(#[trigger] transactions@[k].0.value()),
            decreases transactions@.len() - i,
        {
            if !self.chart.contains(&transactions[i].0.number()) {
                return Err(TransactionError::AccountDoesntExist);
            }
            i = i + 1;
        }
        Ok(())
    }

    /// Record a balanced transaction whose legs all refer to open accounts.
    pub fn transaction(&mut self, description: String, transactions: &[(Number, Balance)], date: Date) -> (r:
        Result<Vec<Event>, TransactionError>)
        ensures
            transaction_outcome(old(self).accounts(), old(self).recorded(), transactions@) matches Err(e)
                ==> r == Err::<Vec<Event>, TransactionError>(e) && *final(self) == *old(self),
            transaction_outcome(old(self).accounts(), old(self).recorded(), transactions@) is Ok ==> {
                &&& r is Ok
                &&& r->Ok_0@.len() == 1
                &&& r->Ok_0@[0] matches Event::Transaction { ledger, description: d, date: t, transactions: legs }
                    && ledger == old(self).ledger_id() && d == description && t == date && legs@
                    == transactions@
                &&& final(self).ledger_id() == old(self).ledger_id()
                &&& final(self).accounts() == old(self).accounts()
                &&& final(self).recorded() == old(self).recorded() + 1
                &&& forall|log: Seq<Event>|
                    old(self).replays(log) ==> #[trigger] final(self).replays(log + r->Ok_0@)
            },
    {
        if transactions.len() == 0 {
            return Err(TransactionError::EmptyTransaction);
        }
        match self.check_balance(transactions) {
            Err(e) => {
                return Err(e);
            },
            Ok(()) => {},
        }
        if self.transactions >= 0xffff_ffff {
            return Err(TransactionError::JournalLimitReached);
        }
        self.transactions = self.transactions + 1;
        let events = vec![
            Event::Transaction {
                ledger: self.id.clone(),
                description,
                date,
                transactions: vstd::slice::slice_to_vec(transactions),
            },
        ];
        assert forall|log: Seq<Event>| old(self).replays(log) implies #[trigger] self.replays(
            log + events@,
        ) by {
            assert((log + events@).drop_last() =~= log);
        }
        Ok(events)
    }
}

} // verus!
