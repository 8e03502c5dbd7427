//! The event log: an append-only sequence of events.

use vstd::prelude::*;
use vstd::std_specs::iter::IteratorSpec;

verus! {

/// An append-only log of events.
pub trait EventStorage<T>: Sized {
    /// The events of the log, in the order they were appended.
    spec fn events(&self) -> Seq<T>;

    /// Append one event.
    fn append(&mut self, event: T)
        ensures
            final(self).events() == old(self).events().push(event),
    ;

    /// Append all `events`, in order.
    fn extend(&mut self, events: Vec<T>)
        ensures
            final(self).events() == old(self).events() + events@,
    ;

    /// Evaluate `producer` on the current log and append the events it
    /// returns; where it fails the log is left unchanged and its error is
    /// returned.
    fn evolve<E, F: Fn(&[T]) -> Result<Vec<T>, E>>(&mut self, producer: F) -> (r: Result<(), E>)
        requires
            forall|s: &[T]| #[trigger] producer.requires((s,)),
        ensures
            exists|s: &[T], out: Result<Vec<T>, E>|
                {
                    &&& s@ == old(self).events()
                    &&& #[trigger] producer.ensures((s,), out)
                    &&& match out {
                        Ok(new) => r is Ok && final(self).events() == old(self).events() + new@,
                        Err(e) => r == Err::<(), E>(e) && final(self).events() == old(
                            self,
                        ).events(),
                    }
                },
    ;

    /// The whole log, as a snapshot.
    fn all(&self) -> (r: &[T])
        ensures
            r@ == self.events(),
    ;
}

/// Read access to a log.
pub trait Query {
    type Item;

    spec fn items(&self) -> Seq<Self::Item>;

    fn all(&self) -> (r: &[Self::Item])
        ensures
            r@ == self.items(),
    ;
}

/// A log held in memory.
#[derive(Debug)]
pub struct InMemoryStore<T> {
    data: Vec<T>,
}

impl<T> View for InMemoryStore<T> {
    type V = Seq<T>;

    closed spec fn view(&self) -> Seq<T> {
        self.data@
    }
}

impl<T> InMemoryStore<T> {
    /// An empty log.
    pub fn new() -> (r: InMemoryStore<T>)
        ensures
            r@ == Seq::<T>::empty(),
    {
        InMemoryStore { data: Vec::new() }
    }

    /// The events in the order they were appended.
    pub fn iter(&self) -> (r: std::slice::Iter<'_, T>)
        ensures
            r.remaining() == self@.as_ref(),
    {
        self.data.iter()
    }

    /// The number of events.
    pub fn len(&self) -> (r: usize)
        ensures
            r == self@.len(),
    {
        self.data.len()
    }
}

impl<T> Default for InMemoryStore<T> {
    fn default() -> (r: Self)
        ensures
            r@ == Seq::<T>::empty(),
    {
        InMemoryStore::new()
    }
}

impl<T> EventStorage<T> for InMemoryStore<T> {
    open spec fn events(&self) -> Seq<T> {
        self@
    }

    fn append(&mut self, event: T) {
        self.data.push(event);
    }

    fn extend(&mut self, events: Vec<T>) {
        let mut events = events;
        self.data.append(&mut events);
    }

    fn evolve<E, F: Fn(&[T]) -> Result<Vec<T>, E>>(&mut self, producer: F) -> (r: Result<(), E>) {
        let snapshot = self.data.as_slice();
        let out = producer(snapshot);
        let ghost s = snapshot;
        let ghost o = out;
        match out {
            Ok(new) => {
                let mut new = new;
                self.data.append(&mut new);
                assert(producer.ensures((s,), o));
                Ok(())
            },
            Err(e) => {
                assert(producer.ensures((s,), o));
                Err(e)
            },
        }
    }

    fn all(&self) -> (r: &[T]) {
        self.data.as_slice()
    }
}

impl<T> Query for InMemoryStore<T> {
    type Item = T;

    open spec fn items(&self) -> Seq<T> {
        self@
    }

    fn all(&self) -> (r: &[T]) {
        self.data.as_slice()
    }
}

} // verus!
