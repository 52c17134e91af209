//! The mailbox that carries requests from the systems that make them to the
//! one system that applies them.

use vstd::prelude::*;

verus! {

/// A first-in, first-out queue of events of one kind. Producers `send`; the
/// single consumer takes everything that is pending with `drain`.
pub struct Events<E> {
    queue: Vec<E>,
}

impl<E> View for Events<E> {
    type V = Seq<E>;

    /// The pending events, oldest first.
    closed spec fn view(&self) -> Seq<E> {
        self.queue@
    }
}

impl<E> Events<E> {
    /// An empty mailbox.
    pub fn new() -> (events: Self)
        ensures
            events@ == Seq::<E>::empty(),
    {
        Events { queue: Vec::new() }
    }

    /// Queues `event` behind everything that is pending.
    pub fn send(&mut self, event: E)
        ensures
            final(self)@ == old(self)@.push(event),
    {
        self.queue.push(event);
    }

    /// The number of pending events.
    pub fn len(&self) -> (count: usize)
        ensures
            count == self@.len(),
    {
        self.queue.len()
    }

    /// Whether nothing is pending.
    pub fn is_empty(&self) -> (empty: bool)
        ensures
            empty == (self@.len() == 0),
    {
        self.queue.len() == 0
    }

    /// Takes every pending event, in the order of submission, and leaves the
    /// mailbox empty.
    pub fn drain(&mut self) -> (taken: Vec<E>)
        ensures
            taken@ == old(self)@,
            final(self)@ == Seq::<E>::empty(),
    {
        let mut taken: Vec<E> = Vec::new();
        std::mem::swap(&mut taken, &mut self.queue);
        taken
    }
}

} // verus!
