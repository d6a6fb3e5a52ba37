//! Latching single-slot signals.
//!
//! A signal holds at most one value: the last one written.  Writing
//! overwrites an unread value; taking returns the latched value and
//! clears the slot; peeking reads it without consuming.  History is not
//! kept — a reader that misses intermediate values sees only the last.

use vstd::prelude::*;

verus! {

/// A latching single-slot signal.
#[derive(Debug)]
pub struct Signal<T> {
    slot: Option<T>,
}

impl<T> Signal<T> {
    /// What the slot holds.
    pub closed spec fn view(&self) -> Option<T> {
        self.slot
    }

    /// An empty signal.
    pub fn new() -> (r: Self)
        ensures
            r@ is None,
    {
        Signal { slot: None }
    }

    /// Stores `v`, overwriting any value not yet read.
    pub fn signal(&mut self, v: T)
        ensures
            final(self)@ == Some(v),
    {
        self.slot = Some(v);
    }

    /// Returns the latched value and clears the slot, if one is latched.
    /// This is the synchronous core of waiting on the signal: a waiter
    /// that gets nothing suspends until the next store.
    pub fn try_take(&mut self) -> (r: Option<T>)
        ensures
            r == old(self)@,
            final(self)@ is None,
    {
        self.slot.take()
    }

    /// Is a value latched?
    pub fn signaled(&self) -> (r: bool)
        ensures
            r == (self@ is Some),
    {
        self.slot.is_some()
    }

    /// Clears the slot.
    pub fn reset(&mut self)
        ensures
            final(self)@ is None,
    {
        self.slot = None;
    }
}

impl<T: Copy> Signal<T> {
    /// Reads the latched value without consuming it.
    pub fn try_signaled_value(&self) -> (r: Option<T>)
        ensures
            r == self@,
    {
        self.slot
    }
}

} // verus!
