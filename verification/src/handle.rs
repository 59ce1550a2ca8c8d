use vstd::prelude::*;

use crate::responder::Responder;
use crate::slot::Slot;

verus! {

/// Why a blueprint is currently not runnable: either it is waiting for an
/// input value — here is the responder that unblocks it — or it has an
/// output value for the driver to observe before it continues.
pub enum InnerEvent<Input, Output> {
    Input(Responder<Input>),
    Output(Output),
}

/// The API surface a blueprint uses at its suspension points. It holds the
/// suspension-reason slot shared with the driver — at most one reason is
/// pending at any time — and the input slot through which a supplied value
/// reaches the blueprint at its next resumption.
pub struct Handle<Input, Output> {
    reason: Slot<InnerEvent<Input, Output>>,
    input: Slot<Input>,
}

impl<Input, Output> Handle<Input, Output> {
    /// The pending suspension reason, if any.
    pub closed spec fn reason(&self) -> Option<InnerEvent<Input, Output>> {
        self.reason@
    }

    /// The input value supplied for the pending request, if any.
    pub closed spec fn input(&self) -> Option<Input> {
        self.input@
    }

    /// A fresh handle: no reason pending, no input supplied.
    pub(crate) fn new() -> (handle: Self)
        ensures
            handle.reason() is None,
            handle.input() is None,
    {
        Handle { reason: Slot::new(), input: Slot::new() }
    }

    /// Registers a request for an input value: creates a fresh responder
    /// over a fresh private rendezvous slot and deposits it as the pending
    /// suspension reason. Depositing while a reason is already pending would
    /// breach the one-pending-reason invariant, so it is demanded empty of
    /// the caller outright. The blueprint must return `Step::Pending` after
    /// this call; the supplied value is read with `take_input` at its next
    /// step.
    pub fn want_input(&mut self)
        requires
            old(self).reason() is None,
        ensures
            (final(self).reason() matches Some(InnerEvent::Input(responder))
                && responder.wf()),
            final(self).input() == old(self).input(),
    {
        let responder = Responder::new();
        self.reason.set(InnerEvent::Input(responder));
    }

    /// Publishes an output value: deposits it as the pending suspension
    /// reason, under the same one-pending-reason demand. The blueprint must
    /// return `Step::Pending` after this call, yielding control for exactly
    /// one step so that the driver observes the output before any further
    /// blueprint work; the next step resumes it unconditionally.
    pub fn provide_output(&mut self, output: Output)
        requires
            old(self).reason() is None,
        ensures
            final(self).reason() == Some(InnerEvent::<Input, Output>::Output(output)),
            final(self).input() == old(self).input(),
    {
        self.reason.set(InnerEvent::Output(output));
    }

    /// Reads the value supplied for the pending input request, removing it:
    /// this is the resumption read of a suspension point registered with
    /// `want_input`. Returns `None` when no value has been supplied.
    pub fn take_input(&mut self) -> (value: Option<Input>)
        ensures
            value == old(self).input(),
            final(self).input() is None,
            final(self).reason() == old(self).reason(),
    {
        self.input.take()
    }

    /// Driver side: delivers the value the consumer supplied through a
    /// responder, for the blueprint to read at its next resumption.
    pub(crate) fn put_input(&mut self, value: Input)
        requires
            old(self).input() is None,
        ensures
            final(self).input() == Some(value),
            final(self).reason() == old(self).reason(),
    {
        self.input.set(value);
    }

    /// Driver side: drains the pending suspension reason.
    pub(crate) fn take_reason(&mut self) -> (reason: Option<InnerEvent<Input, Output>>)
        ensures
            reason == old(self).reason(),
            final(self).reason() is None,
            final(self).input() == old(self).input(),
    {
        self.reason.take()
    }
}

} // verus!
