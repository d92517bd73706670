//! The shared state cell: empty until the loop starts, then holding the
//! user's state for every callback.
use vstd::prelude::*;
use crate::error::ConfigError;

verus! {

/// The user's state, absent until `start` supplies it.
pub enum StateCell<S> {
    Uninitialized,
    Ready(S),
}

/// What a cell holds after an attempt to supply `state`.
pub open spec fn supplied<S>(cell: StateCell<S>, state: S) -> StateCell<S> {
    if cell is Uninitialized { StateCell::Ready(state) } else { cell }
}

impl<S> StateCell<S> {
    pub fn new() -> (r: StateCell<S>)
        ensures
            r is Uninitialized,
    {
        StateCell::Uninitialized
    }

    /// Supplies the state once; a second time fails with `AlreadyStarted`
    /// and keeps the first.
    pub fn set(&mut self, state: S) -> (r: Result<(), ConfigError>)
        ensures
            *final(self) == supplied(*old(self), state),
            r is Ok <==> *old(self) is Uninitialized,
            r is Err ==> r == Err::<(), ConfigError>(ConfigError::AlreadyStarted),
    {
        match self {
            StateCell::Ready(_) => Err(ConfigError::AlreadyStarted),
            StateCell::Uninitialized => {
                *self = StateCell::Ready(state);
                Ok(())
            },
        }
    }

    /// Whether an event or a resize that arrives now reaches its callback:
    /// only once the state is there. Before, it is dropped, without error.
    pub fn accepts_events(&self) -> (r: bool)
        ensures
            r <==> self is Ready,
    {
        match self {
            StateCell::Ready(_) => true,
            StateCell::Uninitialized => false,
        }
    }
}

/// An event that arrives before the state is supplied reaches no callback;
/// after the state is supplied, each event reaches its callback.
pub proof fn lemma_events_wait_for_start<S>(state: S)
    ensures
        !(StateCell::<S>::Uninitialized is Ready),
        supplied(StateCell::<S>::Uninitialized, state) is Ready,
{
}

} // verus!
