//! The write model: aggregates that rebuild their state from the log,
//! validate a command and return the events to append.

pub mod chart;
pub mod journal;
pub mod ledger;

use crate::events::Event;
use crate::write::chart::Chart;
use crate::write::journal::Journal;
use crate::write::ledger::Ledger;
use vstd::prelude::*;

verus! {

/// Replaying one log twice gives the same state: the same open accounts and
/// transaction count of a ledger, the same chart, and the same open accounts
/// and highest id of the journal.
pub proof fn lemma_replay_is_deterministic(
    log: Seq<Event>,
    l1: Ledger,
    l2: Ledger,
    c1: Chart,
    c2: Chart,
    j1: Journal,
    j2: Journal,
)
    requires
        l1.ledger_id()@ == l2.ledger_id()@,
        l1.replays(log),
        l2.replays(log),
        c1.ledger_id()@ == c2.ledger_id()@,
        c1.replays(log),
        c2.replays(log),
        j1.replays(log),
        j2.replays(log),
    ensures
        l1.accounts() == l2.accounts(),
        l1.recorded() == l2.recorded(),
        c1.accounts() == c2.accounts(),
        j1.open() == j2.open(),
        j1.current() == j2.current(),
{
}

} // verus!
