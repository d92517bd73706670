//! A configuration slot that can be filled once.
use vstd::prelude::*;
use crate::error::ConfigError;

verus! {

/// What a slot holds after an attempt to fill it with `value`.
pub open spec fn filled<T>(slot: Option<T>, value: T) -> Option<T> {
    if slot is None { Some(value) } else { slot }
}

/// Holds at most one value, set once and never replaced.
pub struct OnceSlot<T> {
    value: Option<T>,
}

impl<T> View for OnceSlot<T> {
    type V = Option<T>;

    closed spec fn view(&self) -> Option<T> {
        self.value
    }
}

impl<T> OnceSlot<T> {
    pub fn new() -> (r: OnceSlot<T>)
        ensures
            r@ is None,
    {
        OnceSlot { value: None }
    }

    /// Fills an empty slot; on a filled one fails with `AlreadyConfigured`
    /// and keeps what it holds.
    pub fn set(&mut self, value: T) -> (r: Result<(), ConfigError>)
        ensures
            final(self)@ == filled(old(self)@, value),
            r is Ok <==> old(self)@ is None,
            r is Err ==> r == Err::<(), ConfigError>(ConfigError::AlreadyConfigured),
    {
        if self.value.is_some() {
            Err(ConfigError::AlreadyConfigured)
        } else {
            self.value = Some(value);
            Ok(())
        }
    }

    pub fn get(&self) -> (r: Option<&T>)
        ensures
            r matches Some(v) ==> self@ == Some(*v),
            r is None <==> self@ is None,
    {
        match &self.value {
            Some(v) => Some(v),
            None => None,
        }
    }

    pub fn is_set(&self) -> (r: bool)
        ensures
            r <==> self@ is Some,
    {
        self.value.is_some()
    }
}

/// Once a slot holds `first`, every later attempt to fill it fails and the
/// slot keeps `first`.
pub proof fn lemma_first_value_stays<T>(first: T, later: T)
    ensures
        filled(None, first) == Some(first),
        filled(filled(None, first), later) == Some(first),
        filled(filled(filled(None, first), later), later) == Some(first),
{
}

} // verus!
