//! Read models: pure folds over the event log.

use crate::events::Event;
use crate::write::ledger::LedgerId;
use core::marker::PhantomData;
use vstd::prelude::*;

verus! {

/// `update` accepts every state and event.
pub open spec fn is_total<S, E, F: Fn(S, &E) -> S>(update: F) -> bool {
    forall|s: S, e: &E| #[trigger] update.requires((s, e))
}

/// `update` gives one result for each state and event.
pub open spec fn is_deterministic<S, E, F: Fn(S, &E) -> S>(update: F) -> bool {
    forall|s: S, e: &E, r1: S, r2: S|
        #[trigger] update.ensures((s, e), r1) && #[trigger] update.ensures((s, e), r2) ==> r1 == r2
}

/// The state that folding `update` over `events` from `init` gives.
pub open spec fn fold_events<S, E, F: Fn(S, &E) -> S>(update: F, init: S, events: Seq<E>) -> S
    decreases events.len(),
{
    if events.len() == 0 {
        init
    } else {
        let before = fold_events(update, init, events.drop_last());
        choose|r: S| update.ensures((before, &events.last()), r)
    }
}

/// A read model: an initial state and a step function from a state and an
/// event to the next state.
#[verifier::reject_recursive_types(S)]
#[verifier::reject_recursive_types(E)]
pub struct Projection<S, E, F> where F: Fn(S, &E) -> S {
    init: S,
    update: F,
    _phantom: PhantomData<E>,
}

impl<S, E, F> Projection<S, E, F> where F: Fn(S, &E) -> S {
    pub closed spec fn initial(&self) -> S {
        self.init
    }

    pub closed spec fn step(&self) -> F {
        self.update
    }

    pub fn new(init: S, update: F) -> (r: Self)
        ensures
            r.initial() == init,
            r.step() == update,
    {
        Projection { init, update, _phantom: PhantomData }
    }

    /// Fold the step function over `events`, starting from a clone of the
    /// initial state.
    pub fn project(&self, events: &[E]) -> (r: S) where S: Clone
        requires
            is_total(self.step()),
            is_deterministic(self.step()),
        ensures
            exists|c: S| cloned(self.initial(), c) && r == fold_events(self.step(), c, events@),
    {
        let state = self.init.clone();
        let ghost c = state;
        let mut state = state;
        let mut i: usize = 0;
        while i < events.len()
            invariant
                i <= events@.len(),
                is_total(self.step()),
                is_deterministic(self.step()),
                state == fold_events(self.step(), c, events@.subrange(0, i as int)),
            decreases events@.len() - i,
        {
            assert(events@.subrange(0, i + 1).drop_last() =~= events@.subrange(0, i as int));
            let ghost before = state;
            state = (self.update)(state, &events[i]);
            assert(self.step().ensures((before, &events@[i as int]), state));
            i = i + 1;
        }
        assert(events@.subrange(0, i as int) =~= events@);
        assert(cloned(self.initial(), c) && state == fold_events(self.step(), c, events@));
        state
    }
}

/// Projecting the same events twice gives the same state, provided the step
/// function is deterministic and cloning the initial state yields that state.
pub proof fn lemma_project_twice<S: Clone, E, F: Fn(S, &E) -> S>(
    p: Projection<S, E, F>,
    events: Seq<E>,
    c1: S,
    c2: S,
)
    requires
        is_deterministic(p.step()),
        forall|a: S, b: S| #[trigger] cloned(a, b) ==> a == b,
        cloned(p.initial(), c1),
        cloned(p.initial(), c2),
    ensures
        fold_events(p.step(), c1, events) == fold_events(p.step(), c2, events),
{
}

/// The text of each ledger id in `state`.
pub open spec fn id_texts(state: Seq<LedgerId>) -> Seq<Seq<char>> {
    state.map_values(|l: LedgerId| l@)
}

/// The ledgers in `state`, with the ledger that `item` creates added at the
/// end where it is not there yet.
pub open spec fn ledger_ids_step(state: Seq<Seq<char>>, item: Event) -> Seq<Seq<char>> {
    match item {
        Event::LedgerCreated { id } => if state.contains(id@) {
            state
        } else {
            state.push(id@)
        },
        _ => state,
    }
}

/// A step function for a projection of the ids of the created ledgers, each
/// once, in order of creation.
pub fn ledger_ids(ids: Vec<LedgerId>, item: &Event) -> (r: Vec<LedgerId>)
    ensures
        id_texts(r@) == ledger_ids_step(id_texts(ids@), *item),
{
    let mut state = ids;
    match item {
        Event::LedgerCreated { id } => {
            let mut i: usize = 0;
            while i < state.len()
                invariant
                    i <= state@.len(),
                    state@ == ids@,
                    *item == (Event::LedgerCreated { id: *id }),
                    forall|k: int| 0 <= k < i ==> state@[k]@ != id@,
                decreases state@.len() - i,
            {
                if state[i].same(id) {
                    assert(id_texts(state@)[i as int] == id@);
                    assert(id_texts(state@).contains(id@));
                    return state;
                }
                i = i + 1;
            }
            assert(!id_texts(state@).contains(id@)) by {
                if id_texts(state@).contains(id@) {
                    let k = choose|k: int| 0 <= k < id_texts(state@).len() && id_texts(state@)[k] == id@;
                    assert(state@[k]@ == id@);
                }
            }
            let ghost before = state@;
            state.push(id.clone());
            assert(id_texts(state@) =~= id_texts(before).push(id@));
            state
        },
        _ => state,
    }
}

} // verus!
