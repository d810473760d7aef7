//! A rendezvous queue: a channel with room for exactly one unconsumed value.
//!
//! The queue is the state of the slot. A caller that shares it between
//! threads guards it with a lock; a blocking operation is then the
//! non-blocking one, entered once its precondition holds.

use vstd::prelude::*;

verus! {

/// A slot that holds at most one pending value.
#[derive(Debug)]
pub struct RendezvousQueue<T> {
    slot: Option<T>,
}

impl<T> View for RendezvousQueue<T> {
    type V = Option<T>;

    /// The pending value, if there is one.
    closed spec fn view(&self) -> Option<T> {
        self.slot
    }
}

impl<T> RendezvousQueue<T> where T: Copy {
    /// An empty queue.
    pub fn new() -> (queue: Self)
        ensures
            queue@ is None,
    {
        Self { slot: None }
    }

    /// Whether a value is pending.
    pub fn is_full(&self) -> (full: bool)
        ensures
            full == (self@ is Some),
    {
        self.slot.is_some()
    }

    /// Deposits `value`. The slot must be free: a caller that finds it
    /// occupied waits until the pending value was taken.
    pub fn send(&mut self, value: T)
        requires
            old(self)@ is None,
        ensures
            final(self)@ == Some(value),
    {
        self.slot = Some(value);
    }

    /// Deposits `value` if the slot is free and says whether it did. A
    /// pending value is never overwritten.
    pub fn try_send(&mut self, value: T) -> (sent: bool)
        ensures
            sent == (old(self)@ is None),
            sent ==> final(self)@ == Some(value),
            !sent ==> final(self)@ == old(self)@,
    {
        if self.slot.is_some() {
            false
        } else {
            self.slot = Some(value);
            true
        }
    }

    /// Takes the pending value. There must be one: a caller that finds the
    /// slot free waits until a value was deposited.
    pub fn recv(&mut self) -> (value: T)
        requires
            old(self)@ is Some,
        ensures
            old(self)@ == Some(value),
            final(self)@ is None,
    {
        let value = self.slot.unwrap();
        self.slot = None;
        value
    }

    /// Takes the pending value, if there is one.
    pub fn try_recv(&mut self) -> (value: Option<T>)
        ensures
            value == old(self)@,
            final(self)@ is None,
    {
        let value = self.slot;
        self.slot = None;
        value
    }

    /// The pending value, if there is one, which stays pending.
    pub fn try_peek(&self) -> (value: Option<T>)
        ensures
            value == self@,
    {
        self.slot
    }
}

} // verus!
