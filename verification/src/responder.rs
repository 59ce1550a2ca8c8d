use vstd::prelude::*;

use crate::slot::Slot;

verus! {

/// A single-use capability that supplies exactly one value to unblock a
/// pending input request. It owns a private rendezvous slot, created fresh
/// for that one request; `provide` deposits the supplied value into it and
/// consumes the responder, so using it a second time is ruled out by
/// ownership, not by a runtime flag.
pub struct Responder<T = ()> {
    holder: Slot<T>,
}

/// The filled private rendezvous slot of a spent responder: the one value
/// supplied for a pending input request, on its way back to the driver.
/// A reply can only be obtained by consuming a responder, and it carries
/// exactly the value that was supplied.
pub struct Reply<T> {
    holder: Slot<T>,
}

impl<T> Responder<T> {
    /// An unspent responder: its private slot has not been filled yet.
    pub closed spec fn wf(&self) -> bool {
        self.holder@ is None
    }

    /// A fresh responder over a fresh, empty private slot.
    pub(crate) fn new() -> (responder: Self)
        ensures
            responder.wf(),
    {
        Responder { holder: Slot::new() }
    }

    /// Supplies `data` for the pending input request this responder was
    /// handed out for. Consumes the responder: the capability is gone after
    /// one use. The reply holds exactly `data`.
    pub fn provide(self, data: T) -> (reply: Reply<T>)
        requires
            self.wf(),
        ensures
            reply.wf(),
            reply@ == data,
    {
        let Responder { mut holder } = self;
        holder.set(data);
        Reply { holder }
    }
}

impl Responder<()> {
    /// Supplies the unit value: a no-payload convenience for `provide(())`.
    pub fn resume(self) -> (reply: Reply<()>)
        requires
            self.wf(),
        ensures
            reply.wf(),
    {
        self.provide(())
    }
}

impl<T> View for Reply<T> {
    type V = T;

    closed spec fn view(&self) -> T {
        match self.holder@ {
            Some(value) => value,
            None => arbitrary(),
        }
    }
}

impl<T> Reply<T> {
    /// A reply's private slot still holds the supplied value.
    pub closed spec fn wf(&self) -> bool {
        self.holder@ is Some
    }

    /// Drains the private rendezvous slot: hands the supplied value out and
    /// discards the slot, which is never read again.
    pub(crate) fn into_value(self) -> (value: T)
        requires
            self.wf(),
        ensures
            value == self@,
    {
        let Reply { mut holder } = self;
        match holder.take() {
            Some(value) => value,
            None => unreached(),
        }
    }
}

} // verus!
