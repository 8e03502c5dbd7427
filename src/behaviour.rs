//! Producers of new events from the current log.

use crate::account::{Category, Name, Number};
use crate::error::AccountError;
use crate::events::Event;
use crate::write::chart::{open_outcome, Chart};
use crate::write::ledger::{open_accounts, LedgerId};
use vstd::prelude::*;

verus! {

/// The events that open account `id` in `ledger`, given the log `events`;
/// an account that is already open is refused. Suited to
/// [`crate::store::EventStorage::evolve`].
pub fn open_account(
    ledger: LedgerId,
    id: Number,
    name: Name,
    category: Category,
    events: &[Event],
) -> (r: Result<Vec<Event>, AccountError>)
    ensures
        match open_outcome(open_accounts(events@, ledger@), id) {
            Err(e) => r == Err::<Vec<Event>, AccountError>(e),
            Ok(()) => r is Ok && r->Ok_0@ == seq![
                Event::AccountOpened { ledger, id, name, category },
            ],
        },
{
    let mut chart = Chart::new(ledger, events);
    chart.open(id, name, category)
}

} // verus!
