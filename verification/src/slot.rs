use vstd::prelude::*;

verus! {

/// A rendezvous slot: a single-value holding cell shared, over time, between
/// exactly two parties. It holds at most one value; a value may only be
/// deposited while the slot is empty, and reading removes it.
///
/// The view of a slot is its content, `None` when the slot is empty.
pub struct Slot<T> {
    value: Option<T>,
}

impl<T> View for Slot<T> {
    type V = Option<T>;

    closed spec fn view(&self) -> Option<T> {
        self.value
    }
}

impl<T> Slot<T> {
    /// A fresh slot starts out empty.
    pub fn new() -> (slot: Self)
        ensures
            slot@ is None,
    {
        Slot { value: None }
    }

    /// Deposits a value. Depositing into an occupied slot would breach the
    /// single-pending-value protocol, so an empty slot is demanded of the
    /// caller outright.
    pub fn set(&mut self, value: T)
        requires
            old(self)@ is None,
        ensures
            final(self)@ == Some(value),
    {
        if self.value.is_some() {
            // Verification rules this branch out for every verified caller;
            // for an unverified caller that breaks the protocol it aborts,
            // as a fatal contract violation should.
            unreached::<()>();
        }
        self.value = Some(value);
    }

    /// Removes and returns the content, leaving the slot empty. Reading
    /// removes the value: a deposited value is handed out at most once.
    pub fn take(&mut self) -> (content: Option<T>)
        ensures
            content == old(self)@,
            final(self)@ is None,
    {
        self.value.take()
    }
}

} // verus!
