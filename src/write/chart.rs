//! The chart of accounts of one ledger.

use crate::account::{Category, Name, Number};
use crate::error::AccountError;
use crate::events::Event;
use crate::write::ledger::{open_accounts, LedgerId};
use std::collections::HashSet;
use vstd::prelude::*;

verus! {

/// Which accounts of a ledger are open, rebuilt from the log.
///
/// An account is open from its opening to its closing. Opening an account
/// that is open is refused; once closed, an account may be opened again.
#[derive(Debug)]
pub struct Chart {
    ledger: LedgerId,
    data: HashSet<u32>,
}

/// The outcome of opening account `n` when the `open` accounts are open.
pub open spec fn open_outcome(open: Set<u32>, n: Number) -> Result<(), AccountError> {
    if open.contains(n.value()) {
        Err(AccountError::Opened(n.value()))
    } else {
        Ok(())
    }
}

/// The outcome of closing account `n` when the `open` accounts are open.
pub open spec fn close_outcome(open: Set<u32>, n: Number) -> Result<(), AccountError> {
    if open.contains(n.value()) {
        Ok(())
    } else {
        Err(AccountError::Closed)
    }
}

/// Opening accounts never closes one: the accounts open in ledger `l` stay
/// open when only openings are appended.
proof fn lemma_openings_keep_open(log: Seq<Event>, more: Seq<Event>, l: Seq<char>)
    requires
        forall|i: int| 0 <= i < more.len() ==> #[trigger] more[i] is AccountOpened,
    ensures
        open_accounts(log, l).subset_of(open_accounts(log + more, l)),
    decreases more.len(),
{
    if more.len() > 0 {
        lemma_openings_keep_open(log, more.drop_last(), l);
        assert((log + more).drop_last() =~= log + more.drop_last());
        assert(more.last() is AccountOpened);
    }
}

/// Once account `n` has been opened in a ledger, opening it again in that
/// ledger is refused with `Opened(n)`, whatever name and category either call
/// gives, when only other openings came in between.
pub proof fn lemma_second_open_refused(
    log: Seq<Event>,
    ledger: LedgerId,
    n: Number,
    name: Name,
    category: Category,
    between: Seq<Event>,
)
    requires
        forall|i: int| 0 <= i < between.len() ==> #[trigger] between[i] is AccountOpened,
    ensures
        open_outcome(
            open_accounts(
                log.push(Event::AccountOpened { ledger, id: n, name, category }) + between,
                ledger@,
            ),
            n,
        ) == Err::<(), AccountError>(AccountError::Opened(n.value())),
{
    let first = log.push(Event::AccountOpened { ledger, id: n, name, category });
    assert(first.drop_last() =~= log);
    lemma_openings_keep_open(first, between, ledger@);
}

impl Chart {
    /// The ledger whose accounts this chart holds.
    pub closed spec fn ledger_id(&self) -> LedgerId {
        self.ledger
    }

    /// The numbers of the open accounts.
    pub closed spec fn accounts(&self) -> Set<u32> {
        self.data@
    }

    /// The chart holds the state that replaying `log` gives.
    pub open spec fn replays(&self, log: Seq<Event>) -> bool {
        self.accounts() == open_accounts(log, self.ledger_id()@)
    }

    /// Rebuild the chart of `ledger` from the log.
    pub fn new(ledger: LedgerId, history: &[Event]) -> (r: Self)
        ensures
            r.ledger_id() == ledger,
            r.replays(history@),
    {
        broadcast use vstd::std_specs::hash::group_hash_axioms;

        let mut data: HashSet<u32> = HashSet::new();
        let mut i: usize = 0;
        while i < history.len()
            invariant
                i <= history@.len(),
                data@ == open_accounts(history@.subrange(0, i as int), ledger@),
            decreases history@.len() - i,
        {
            assert(history@.subrange(0, i + 1).drop_last() =~= history@.subrange(0, i as int));
            match &history[i] {
                Event::AccountOpened { ledger: l, id, .. } => {
                    if l.same(&ledger) {
                        data.insert(id.number());
                    }
                },
                Event::AccountClosed { ledger: l, account } => {
                    if l.same(&ledger) {
                        data.remove(&account.number());
                    }
                },
                _ => {},
            }
            i = i + 1;
        }
        assert(history@.subrange(0, i as int) =~= history@);
        Chart { ledger, data }
    }

    /// Whether account `number` is open.
    pub fn is_open(&self, number: Number) -> (r: bool)
        ensures
            r == self.accounts().contains(number.value()),
    {
        broadcast use vstd::std_specs::hash::group_hash_axioms;

        self.data.contains(&number.number())
    }

    /// Open an account; an account that is already open is refused.
    pub fn open(&mut self, number: Number, name: Name, category: Category) -> (r: Result<
        Vec<Event>,
        AccountError,
    >)
        ensures
            open_outcome(old(self).accounts(), number) matches Err(e) ==> r == Err::<
                Vec<Event>,
                AccountError,
            >(e) && *final(self) == *old(self),
            open_outcome(old(self).accounts(), number) is Ok ==> r is Ok && r->Ok_0@ == seq![
                Event::AccountOpened { ledger: old(self).ledger_id(), id: number, name, category },
            ] && final(self).ledger_id() == old(self).ledger_id() && final(self).accounts()
                == old(self).accounts().insert(number.value()) && forall|log: Seq<Event>|
                old(self).replays(log) ==> #[trigger] final(self).replays(log + r->Ok_0@),
    {
        broadcast use vstd::std_specs::hash::group_hash_axioms;

        if self.data.contains(&number.number()) {
            return Err(AccountError::Opened(number.number()));
        }
        self.data.insert(number.number());
        let events = vec![
            Event::AccountOpened { ledger: self.ledger.clone(), id: number, name, category },
        ];
        assert forall|log: Seq<Event>| old(self).replays(log) implies #[trigger] self.replays(
            log + events@,
        ) by {
            assert((log + events@).drop_last() =~= log);
        }
        Ok(events)
    }

    /// Close an open account; an account that is not open is refused.
    pub fn close(&mut self, number: Number) -> (r: Result<Vec<Event>, AccountError>)
        ensures
            close_outcome(old(self).accounts(), number) matches Err(e) ==> r == Err::<
                Vec<Event>,
                AccountError,
            >(e) && *final(self) == *old(self),
            close_outcome(old(self).accounts(), number) is Ok ==> r is Ok && r->Ok_0@ == seq![
                Event::AccountClosed { ledger: old(self).ledger_id(), account: number },
            ] && final(self).ledger_id() == old(self).ledger_id() && final(self).accounts()
                == old(self).accounts().remove(number.value()) && forall|log: Seq<Event>|
                old(self).replays(log) ==> #[trigger] final(self).replays(log + r->Ok_0@),
    {
        broadcast use vstd::std_specs::hash::group_hash_axioms;

        if !self.data.contains(&number.number()) {
            return Err(AccountError::Closed);
        }
        self.data.remove(&number.number());
        let events = vec![Event::AccountClosed { ledger: self.ledger.clone(), account: number }];
        assert forall|log: Seq<Event>| old(self).replays(log) implies #[trigger] self.replays(
            log + events@,
        ) by {
            assert((log + events@).drop_last() =~= log);
        }
        Ok(events)
    }
}

} // verus!
