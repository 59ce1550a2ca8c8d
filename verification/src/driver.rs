use vstd::prelude::*;

use crate::handle::Handle;
use crate::handle::InnerEvent;
use crate::responder::Reply;
use crate::responder::Responder;
use crate::sequence::events_of;
use crate::sequence::lemma_longer_script;
use crate::sequence::lemma_one_more_pull;
use crate::sequence::run_to;
use crate::sequence::EventView;

verus! {

/// What a blueprint does when it is advanced by one step, at the level of
/// its specification: it registers a request for input, it publishes an
/// output value, or it finishes with its return value.
pub enum Act<Output, Return> {
    Request,
    Emit(Output),
    Finish(Return),
}

/// What one step of a blueprint reports back to the driver: the blueprint
/// either suspended — its reason is then pending in the handle — or it ran
/// to completion with a return value.
pub enum Step<Return> {
    Pending,
    Ready(Return),
}

/// A suspendable sequential computation. The blueprint is advanced one step
/// at a time by the driver; within a step it may call the handle operations
/// to register exactly one suspension reason, or it may finish.
///
/// `transition` is the blueprint's specification: from the current state and
/// the input supplied for a pending request (if any), it gives the state
/// after the step and the act the step performs. `step` is the matching
/// executable advance, and every implementation must move exactly as its
/// `transition` says.
pub trait Blueprint<Input, Output>: Sized {
    /// The type of the value the blueprint finishes with.
    type Return;

    /// The blueprint's step relation: the state after one step, and the act
    /// that step performs, given the input supplied for a pending request.
    /// The default says nothing; an implementation states its own relation,
    /// and `step` is held to it.
    open spec fn transition(self, input: Option<Input>) -> (Self, Act<Output, Self::Return>) {
        arbitrary()
    }

    /// Advances the blueprint by one step. The handle carries no pending
    /// reason when the step begins; when the step suspends, exactly one
    /// reason is pending when it ends, and it is the one `transition` says.
    fn step(&mut self, handle: &mut Handle<Input, Output>) -> (step: Step<Self::Return>)
        requires
            old(handle).reason() is None,
        ensures
            ({
                let (state, act) = old(self).transition(old(handle).input());
                &&& *final(self) == state
                &&& match act {
                    Act::Request => {
                        &&& step is Pending
                        &&& (final(handle).reason() matches Some(InnerEvent::Input(responder))
                            && responder.wf())
                    },
                    Act::Emit(output) => {
                        &&& step is Pending
                        &&& final(handle).reason()
                            == Some(InnerEvent::<Input, Output>::Output(output))
                    },
                    Act::Finish(value) => {
                        &&& step == Step::<Self::Return>::Ready(value)
                        &&& final(handle).reason() is None
                    },
                }
            }),
    ;
}

/// An externally observable event of a running blueprint: it requests an
/// input value — the responder supplies it —, it produced an output value,
/// or it returned. `Return` is always the last item of the event sequence;
/// no event follows it.
pub enum Event<Input, Output, Return> {
    Input(Responder<Input>),
    Output(Output),
    Return(Return),
}

impl<Input, Output, Return> View for Event<Input, Output, Return> {
    type V = EventView<Output, Return>;

    open spec fn view(&self) -> EventView<Output, Return> {
        match self {
            Event::Input(_) => EventView::Input,
            Event::Output(output) => EventView::Output(*output),
            Event::Return(value) => EventView::Return(*value),
        }
    }
}

/// The step engine and the event sequence in one: it owns the blueprint and
/// the handle, advances the blueprint by a single step on each pull, drains
/// the suspension reason the step deposited, and hands back the matching
/// event. Once the blueprint has returned, the sequence is exhausted
/// permanently.
pub struct Executor<Input, Output, B: Blueprint<Input, Output>> {
    blueprint: B,
    handle: Handle<Input, Output>,
    done: bool,
    awaiting: bool,
    init: Ghost<B>,
    script: Ghost<Seq<Input>>,
    history: Ghost<Seq<EventView<Output, B::Return>>>,
}

impl<Input, Output, B: Blueprint<Input, Output>> Executor<Input, Output, B> {
    /// Between pulls the rendezvous state is quiescent: no suspension reason
    /// and no input value sit in the handle, and a sequence that still owes
    /// its consumer an input request is not completed. A return event stands
    /// in the history of pulled events exactly once the sequence is
    /// completed, and exactly as its last item: no event follows it. And
    /// the executor is faithful to its blueprint's step relation: what has
    /// been pulled so far is exactly the run of the initial blueprint
    /// against the values supplied so far, one pull per event, with the
    /// whole script consumed and the blueprint in the state that run
    /// reaches.
    pub closed spec fn wf(&self) -> bool {
        &&& self.handle.reason() is None
        &&& self.handle.input() is None
        &&& (self.awaiting ==> !self.done)
        &&& (forall|i: int|
            0 <= i < self.history@.len() ==> (self.history@[i] is Return <==> (self.done && i
                == self.history@.len() - 1)))
        &&& ({
            let run = run_to(self.init@, self.script@, false, self.history@.len());
            &&& run.state == self.blueprint
            &&& run.rem.len() == 0
            &&& run.awaiting == self.awaiting
            &&& run.done == self.done
            &&& run.events == self.history@
        })
    }

    /// The blueprint has returned: the event sequence is exhausted.
    pub closed spec fn completed(&self) -> bool {
        self.done
    }

    /// The last event pulled was an input request whose responder has not
    /// been spent yet: the next pull must carry the reply.
    pub closed spec fn awaiting_input(&self) -> bool {
        self.awaiting
    }

    /// The blueprint's current state.
    pub closed spec fn blueprint(&self) -> B {
        self.blueprint
    }

    /// The views of the events pulled so far, in the order they were
    /// produced: exactly the temporal order in which the blueprint
    /// requested, published and returned.
    pub closed spec fn history(&self) -> Seq<EventView<Output, B::Return>> {
        self.history@
    }

    /// The blueprint as it was handed to `run`, before any step.
    pub closed spec fn initial(&self) -> B {
        self.init@
    }

    /// The values supplied so far through responders, in the order they
    /// were supplied: one for each input request pulled so far.
    pub closed spec fn script(&self) -> Seq<Input> {
        self.script@
    }

    /// The executable sequence is the specification-level one: the events
    /// pulled so far are exactly the event sequence of the initial
    /// blueprint against the values supplied so far, one pull per event.
    pub proof fn lemma_history_is_the_run(&self)
        requires
            self.wf(),
        ensures
            self.history() == events_of(self.initial(), self.script(), self.history().len()),
    {
    }

    /// Within the events pulled so far, a return event stands only as the
    /// last item, and only once the sequence is completed: no event follows
    /// it.
    pub proof fn lemma_return_closes_history(&self, i: int)
        requires
            self.wf(),
            0 <= i < self.history().len(),
            self.history()[i] is Return,
        ensures
            i == self.history().len() - 1,
            self.completed(),
    {
    }

    /// A fresh executor around a blueprint that has not run yet.
    pub(crate) fn new(blueprint: B) -> (executor: Self)
        ensures
            executor.wf(),
            !executor.completed(),
            !executor.awaiting_input(),
            executor.blueprint() == blueprint,
            executor.initial() == blueprint,
            executor.script() == Seq::<Input>::empty(),
            executor.history() == Seq::<EventView<Output, B::Return>>::empty(),
    {
        Executor {
            init: Ghost(blueprint),
            blueprint,
            handle: Handle::new(),
            done: false,
            awaiting: false,
            script: Ghost(Seq::empty()),
            history: Ghost(Seq::empty()),
        }
    }

    /// Pulls the next event of the sequence.
    ///
    /// A reply — the spent responder of the last `Event::Input` — is handed
    /// in exactly when one is owed. Its value is delivered to the blueprint,
    /// which observes exactly that value at this resumption; the blueprint
    /// is then advanced by a single step, and the one event that step
    /// produced comes back:
    ///
    /// - the blueprint's `transition` decides the event: an input request
    ///   becomes `Event::Input` carrying a fresh responder, a published
    ///   value becomes `Event::Output` carrying exactly that value, and
    ///   completion becomes `Event::Return` carrying the return value;
    /// - `Event::Return` is terminal: the sequence is completed afterwards,
    ///   and every later pull leaves the executor unchanged and produces
    ///   nothing.
    pub fn next(&mut self, reply: Option<Reply<Input>>) -> (event: Option<
        Event<Input, Output, B::Return>,
    >)
        requires
            old(self).wf(),
            old(self).awaiting_input() <==> reply is Some,
            (reply matches Some(r) ==> r.wf()),
        ensures
            final(self).wf(),
            old(self).completed() ==> event is None && *final(self) == *old(self),
            !old(self).completed() ==> ({
                let input = match reply {
                    Some(r) => Some(r@),
                    None => None::<Input>,
                };
                let (state, act) = old(self).blueprint().transition(input);
                &&& final(self).blueprint() == state
                &&& event is Some
                &&& final(self).history() == old(self).history().push(event->Some_0@)
                &&& final(self).initial() == old(self).initial()
                &&& final(self).script() == (match reply {
                    Some(r) => old(self).script().push(r@),
                    None => old(self).script(),
                })
                &&& match act {
                    Act::Request => {
                        &&& (event matches Some(Event::Input(responder)) && responder.wf())
                        &&& final(self).awaiting_input()
                        &&& !final(self).completed()
                    },
                    Act::Emit(output) => {
                        &&& (event matches Some(Event::Output(out)) && out == output)
                        &&& !final(self).awaiting_input()
                        &&& !final(self).completed()
                    },
                    Act::Finish(value) => {
                        &&& (event matches Some(Event::Return(ret)) && ret == value)
                        &&& !final(self).awaiting_input()
                        &&& final(self).completed()
                    },
                }
            }),
    {
        if self.done {
            return None;
        }
        proof {
            if self.awaiting {
                lemma_longer_script(
                    self.init@,
                    self.script@,
                    seq![reply->Some_0@],
                    false,
                    self.history@.len(),
                );
                assert(self.script@.push(reply->Some_0@) =~= self.script@.add(
                    seq![reply->Some_0@],
                ));
                lemma_one_more_pull(
                    self.init@,
                    self.script@.push(reply->Some_0@),
                    false,
                    self.history@.len(),
                );
            } else {
                lemma_one_more_pull(self.init@, self.script@, false, self.history@.len());
            }
        }
        match reply {
            Some(r) => {
                let value = r.into_value();
                self.script = Ghost(self.script@.push(value));
                self.handle.put_input(value);
                self.awaiting = false;
            },
            None => {},
        }
        let step = self.blueprint.step(&mut self.handle);
        // A value the blueprint left unread is discarded: the request it
        // answered is over either way.
        let _leftover = self.handle.take_input();
        let event = match step {
            Step::Ready(value) => {
                self.done = true;
                Event::Return(value)
            },
            Step::Pending => match self.handle.take_reason() {
                Some(InnerEvent::Input(responder)) => {
                    self.awaiting = true;
                    Event::Input(responder)
                },
                Some(InnerEvent::Output(output)) => Event::Output(output),
                None => unreached(),
            },
        };
        self.history = Ghost(self.history@.push(event@));
        Some(event)
    }
}

/// The entry point: wraps a blueprint in a fresh executor, whose pulls are
/// the blueprint's event sequence.
pub fn run<Input, Output, B: Blueprint<Input, Output>>(blueprint: B) -> (executor: Executor<
    Input,
    Output,
    B,
>)
    ensures
        executor.wf(),
        !executor.completed(),
        !executor.awaiting_input(),
        executor.blueprint() == blueprint,
        executor.initial() == blueprint,
        executor.script() == Seq::<Input>::empty(),
        executor.history() == Seq::<EventView<Output, B::Return>>::empty(),
{
    Executor::new(blueprint)
}

} // verus!
