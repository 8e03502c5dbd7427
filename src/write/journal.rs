//! The journal: records balanced entries under strictly increasing ids.
//!
//! The journal keeps a single numbering for the whole log. Each entry is a
//! header event carrying its id, followed by one event per leg.

use crate::account::Number;
use crate::balance::Balance;
use crate::date::Date;
use crate::error::JournalError;
use crate::events::Event;
use crate::legs::{all_open, balanced, is_balanced};
use crate::JournalId;
use std::collections::HashSet;
use vstd::prelude::*;

verus! {

/// The accounts open after `log`, over all ledgers: opening adds an account,
/// closing removes it.
pub open spec fn journal_accounts(log: Seq<Event>) -> Set<u32>
    decreases log.len(),
{
    if log.len() == 0 {
        Set::empty()
    } else {
        match log.last() {
            Event::AccountOpened { id, .. } => journal_accounts(log.drop_last()).insert(id.value()),
            Event::AccountClosed { account, .. } => journal_accounts(log.drop_last()).remove(
                account.value(),
            ),
            _ => journal_accounts(log.drop_last()),
        }
    }
}

/// The highest journal id in `log`, or 0 where there is none.
pub open spec fn max_journal_id(log: Seq<Event>) -> JournalId
    decreases log.len(),
{
    if log.len() == 0 {
        0
    } else {
        let before = max_journal_id(log.drop_last());
        match log.last() {
            Event::Journal { id, .. } => if id > before {
                id
            } else {
                before
            },
            _ => before,
        }
    }
}

/// The events of a journal entry: its header, then one event per leg.
pub open spec fn journal_events(
    id: JournalId,
    description: String,
    date: Date,
    legs: Seq<(Number, Balance)>,
) -> Seq<Event>
    decreases legs.len(),
{
    if legs.len() == 0 {
        seq![Event::Journal { id, description, date }]
    } else {
        journal_events(id, description, date, legs.drop_last()).push(
            Event::Leg { journal: id, account: legs.last().0, amount: legs.last().1 },
        )
    }
}

/// The outcome of an entry with `legs` when the `open` accounts are open and
/// `current` is the highest id so far.
pub open spec fn entry_outcome(
    open: Set<u32>,
    current: JournalId,
    legs: Seq<(Number, Balance)>,
) -> Result<(), JournalError> {
    if legs.len() == 0 {
        Err(JournalError::EmptyTransaction)
    } else if !is_balanced(legs) {
        Err(JournalError::ImbalancedTranasactions)
    } else if !all_open(legs, open) {
        Err(JournalError::InvalidTransaction)
    } else if current == u32::MAX {
        Err(JournalError::JournalLimitReached)
    } else {
        Ok(())
    }
}

/// The events that an entry appends to `log`, or its error.
pub open spec fn journal_entry(
    log: Seq<Event>,
    description: String,
    legs: Seq<(Number, Balance)>,
    date: Date,
) -> Result<Seq<Event>, JournalError> {
    match entry_outcome(journal_accounts(log), max_journal_id(log), legs) {
        Err(e) => Err(e),
        Ok(()) => Ok(journal_events((max_journal_id(log) + 1) as u32, description, date, legs)),
    }
}

/// The id that the events of an entry carry in their header.
pub open spec fn entry_id(events: Seq<Event>) -> JournalId {
    match events[0] {
        Event::Journal { id, .. } => id,
        _ => 0,
    }
}

/// Appending the events of an entry leaves the open accounts as they were and
/// raises the highest id to at least the entry's id.
proof fn lemma_append_entry(
    log: Seq<Event>,
    id: JournalId,
    description: String,
    date: Date,
    legs: Seq<(Number, Balance)>,
)
    ensures
        journal_accounts(log + journal_events(id, description, date, legs)) == journal_accounts(
            log,
        ),
        max_journal_id(log + journal_events(id, description, date, legs)) == if id > max_journal_id(
            log,
        ) {
            id
        } else {
            max_journal_id(log)
        },
    decreases legs.len(),
{
    let ev = journal_events(id, description, date, legs);
    if legs.len() == 0 {
        assert((log + ev).drop_last() =~= log);
    } else {
        lemma_append_entry(log, id, description, date, legs.drop_last());
        assert((log + ev).drop_last() =~= log + journal_events(
            id,
            description,
            date,
            legs.drop_last(),
        ));
    }
}

/// The highest id of a log never drops when events are appended.
proof fn lemma_max_id_grows(log: Seq<Event>, more: Seq<Event>)
    ensures
        max_journal_id(log + more) >= max_journal_id(log),
    decreases more.len(),
{
    if more.len() > 0 {
        lemma_max_id_grows(log, more.drop_last());
        assert((log + more).drop_last() =~= log + more.drop_last());
    }
}

/// Entry ids strictly increase: an entry recorded after another one, on a log
/// that holds the earlier entry's events, gets a greater id.
pub proof fn lemma_entry_ids_increase(
    log: Seq<Event>,
    first: Seq<Event>,
    between: Seq<Event>,
    second: Seq<Event>,
    d1: String,
    legs1: Seq<(Number, Balance)>,
    date1: Date,
    d2: String,
    legs2: Seq<(Number, Balance)>,
    date2: Date,
)
    requires
        journal_entry(log, d1, legs1, date1) == Ok::<Seq<Event>, JournalError>(first),
        journal_entry(log + first + between, d2, legs2, date2) == Ok::<Seq<Event>, JournalError>(
            second,
        ),
    ensures
        entry_id(first) < entry_id(second),
        entry_id(first) == max_journal_id(log) + 1,
{
    let id1 = (max_journal_id(log) + 1) as u32;
    lemma_append_entry(log, id1, d1, date1, legs1);
    lemma_max_id_grows(log + first, between);
    lemma_journal_events_head(id1, d1, date1, legs1);
    lemma_journal_events_head(
        (max_journal_id(log + first + between) + 1) as u32,
        d2,
        date2,
        legs2,
    );
}

proof fn lemma_journal_events_head(
    id: JournalId,
    description: String,
    date: Date,
    legs: Seq<(Number, Balance)>,
)
    ensures
        journal_events(id, description, date, legs).len() == legs.len() + 1,
        journal_events(id, description, date, legs)[0] == (Event::Journal { id, description, date }),
    decreases legs.len(),
{
    if legs.len() > 0 {
        lemma_journal_events_head(id, description, date, legs.drop_last());
    }
}

/// The events of entry `id`: a header, then one event per leg.
fn make_journal(id: JournalId, description: String, transactions: &[(Number, Balance)], date: Date) -> (r: Vec<Event>)
    ensures
        r@ == journal_events(id, description, date, transactions@),
{
    let ghost d = description;
    let mut v: Vec<Event> = vec![Event::Journal { id, description, date }];
    let mut i: usize = 0;
    while i < transactions.len()
        invariant
            i <= transactions@.len(),
            v@ == journal_events(id, d, date, transactions@.subrange(0, i as int)),
        decreases transactions@.len() - i,
    {
        assert(transactions@.subrange(0, i + 1).drop_last() =~= transactions@.subrange(0, i as int));
        let (account, amount) = transactions[i];
        v.push(Event::Leg { journal: id, account, amount });
        i = i + 1;
    }
    assert(transactions@.subrange(0, i as int) =~= transactions@);
    v
}

/// The next id after `current`, or an error where the ids are used up.
fn next_id(current: JournalId) -> (r: Result<JournalId, JournalError>)
    ensures
        current == u32::MAX ==> r == Err::<JournalId, JournalError>(JournalError::JournalLimitReached),
        current < u32::MAX ==> r == Ok::<JournalId, JournalError>((current + 1) as u32),
{
    match current.checked_add(1) {
        Some(id) => Ok(id),
        None => Err(JournalError::JournalLimitReached),
    }
}

/// The open accounts and the highest entry id, rebuilt from the log.
#[derive(Debug)]
pub struct Journal {
    current_id: JournalId,
    accounts: HashSet<u32>,
}

impl Journal {
    /// The highest id recorded so far.
    pub closed spec fn current(&self) -> JournalId {
        self.current_id
    }

    /// The numbers of the open accounts.
    pub closed spec fn open(&self) -> Set<u32> {
        self.accounts@
    }

    /// The journal holds the state that replaying `log` gives.
    pub open spec fn replays(&self, log: Seq<Event>) -> bool {
        &&& self.open() == journal_accounts(log)
        &&& self.current() == max_journal_id(log)
    }

    /// Rebuild the journal from the log.
    pub fn new(history: &[Event]) -> (r: Self)
        ensures
            r.replays(history@),
    {
        broadcast use vstd::std_specs::hash::group_hash_axioms;

        let mut current_id: JournalId = 0;
        let mut accounts: HashSet<u32> = HashSet::new();
        let mut i: usize = 0;
        while i < history.len()
            invariant
                i <= history@.len(),
                accounts@ == journal_accounts(history@.subrange(0, i as int)),
                current_id == max_journal_id(history@.subrange(0, i as int)),
            decreases history@.len() - i,
        {
            assert(history@.subrange(0, i + 1).drop_last() =~= history@.subrange(0, i as int));
            match &history[i] {
                Event::AccountOpened { id, .. } => {
                    accounts.insert(id.number());
                },
                Event::AccountClosed { account, .. } => {
                    accounts.remove(&account.number());
                },
                Event::Journal { id, .. } => {
                    if *id > current_id {
                        current_id = *id;
                    }
                },
                _ => {},
            }
            i = i + 1;
        }
        assert(history@.subrange(0, i as int) =~= history@);
        Journal { current_id, accounts }
    }

    /// The next id that an entry gets, or `None` where the ids are used up.
    pub fn next_id(&self) -> (r: Option<JournalId>)
        ensures
            self.current() < u32::MAX ==> r == Some((self.current() + 1) as u32),
            self.current() == u32::MAX ==> r is None,
    {
        match next_id(self.current_id) {
            Ok(id) => Some(id),
            Err(_) => None,
        }
    }

    /// Record an entry: its legs must be non-empty, balance and refer to
    /// open accounts, checked in that order. On success the entry gets the next id, and the header and
    /// one event per leg are returned, to be appended together.
    pub fn entry(&mut self, description: String, transactions: &[(Number, Balance)], date: Date) -> (r:
        Result<Vec<Event>, JournalError>)
        ensures
            entry_outcome(old(self).open(), old(self).current(), transactions@) matches Err(e) ==> r
                == Err::<Vec<Event>, JournalError>(e) && *final(self) == *old(self),
            entry_outcome(old(self).open(), old(self).current(), transactions@) is Ok ==> {
                &&& r is Ok
                &&& r->Ok_0@ == journal_events(
                    (old(self).current() + 1) as u32,
                    description,
                    date,
                    transactions@,
                )
                &&& final(self).current() == old(self).current() + 1
                &&& final(self).open() == old(self).open()
            },
            forall|log: Seq<Event>| #[trigger]
                old(self).replays(log) ==> match r {
                    Ok(events) => journal_entry(log, description, transactions@, date) == Ok::<
                        Seq<Event>,
                        JournalError,
                    >(events@) && final(self).replays(log + events@),
                    Err(e) => journal_entry(log, description, transactions@, date) == Err::<
                        Seq<Event>,
                        JournalError,
                    >(e),
                },
    {
        broadcast use vstd::std_specs::hash::group_hash_axioms;

        if transactions.len() == 0 {
            return Err(JournalError::EmptyTransaction);
        }
        if !balanced(transactions) {
            return Err(JournalError::ImbalancedTranasactions);
        }
        let mut i: usize = 0;
        while i < transactions.len()
            invariant
                i <= transactions@.len(),
                is_balanced(transactions@),
                forall|k: int| 0 <= k < i ==> self.open().contains(#[trigger] transactions@[k].0.value()),
            decreases transactions@.len() - i,
        {
            if !self.accounts.contains(&transactions[i].0.number()) {
                return Err(JournalError::InvalidTransaction);
            }
            i = i + 1;
        }
        let id = match next_id(self.current_id) {
            Ok(id) => id,
            Err(e) => {
                return Err(e);
            },
        };
        let events = make_journal(id, description, transactions, date);
        self.current_id = id;
        assert forall|log: Seq<Event>| #[trigger] old(self).replays(log) implies self.replays(
            log + events@,
        ) by {
            lemma_append_entry(log, id, description, date, transactions@);
        }
        Ok(events)
    }
}

} // verus!
