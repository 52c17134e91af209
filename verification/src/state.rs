//! The slot in which a requested state waits until a state machine takes it
//! up at the start of its next tick.

use vstd::prelude::*;

verus! {

/// At most one requested state. A later request replaces an earlier one that
/// has not been taken up yet.
#[derive(Clone, Copy, Debug, PartialEq, Eq, Structural)]
pub enum NextState<S> {
    Unchanged,
    Pending(S),
}

impl<S> NextState<S> {
    /// Requests `state`.
    pub fn set(&mut self, state: S)
        ensures
            *final(self) == NextState::Pending(state),
    {
        *self = NextState::Pending(state);
    }

    /// Takes the request out of the slot, if there is one.
    pub fn take(&mut self) -> (requested: Option<S>)
        ensures
            *final(self) == NextState::<S>::Unchanged,
            requested == match *old(self) {
                NextState::Pending(state) => Some(state),
                NextState::Unchanged => None,
            },
    {
        let mut taken: NextState<S> = NextState::Unchanged;
        std::mem::swap(&mut taken, self);
        match taken {
            NextState::Pending(state) => Some(state),
            NextState::Unchanged => None,
        }
    }
}

} // verus!
