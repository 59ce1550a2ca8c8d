use vstd::prelude::*;

use crate::driver::Act;
use crate::driver::Blueprint;

verus! {

/// An event of the sequence as the specification sees it: the responder of
/// an input request carries no specification-level content, an output event
/// carries the published value, and a return event carries the return value.
pub enum EventView<Output, Return> {
    Input,
    Output(Output),
    Return(Return),
}

/// The outcome of running a blueprint for a bounded number of pulls against
/// a script of reply values: the state the blueprint reached, the part of
/// the script not consumed yet, whether an input request is pending and
/// whether the blueprint has returned, and the events produced, in order.
pub struct Run<Input, Output, B: Blueprint<Input, Output>> {
    pub state: B,
    pub rem: Seq<Input>,
    pub awaiting: bool,
    pub done: bool,
    pub events: Seq<EventView<Output, B::Return>>,
}

/// Runs a blueprint for at most `pulls` pulls, supplying the values of
/// `script`, in order, one for each input request; `awaiting` says whether
/// an input request is pending from before. Each pull is one application of
/// the blueprint's `transition` — exactly what `Executor::next` is held to —
/// so a request appends an input event, a published value appends an output
/// event, and completion appends a return event and ends the run. A pending
/// request whose value the script never supplies produces no further items.
pub open spec fn run_to<Input, Output, B: Blueprint<Input, Output>>(
    blueprint: B,
    script: Seq<Input>,
    awaiting: bool,
    pulls: nat,
) -> Run<Input, Output, B>
    decreases pulls,
{
    if pulls == 0 || (awaiting && script.len() == 0) {
        Run { state: blueprint, rem: script, awaiting, done: false, events: Seq::empty() }
    } else {
        let input = if awaiting {
            Some(script[0])
        } else {
            None
        };
        let rest = if awaiting {
            script.drop_first()
        } else {
            script
        };
        let (state, act) = blueprint.transition(input);
        match act {
            Act::Request => {
                let run = run_to(state, rest, true, (pulls - 1) as nat);
                Run { events: seq![EventView::Input].add(run.events), ..run }
            },
            Act::Emit(output) => {
                let run = run_to(state, rest, false, (pulls - 1) as nat);
                Run { events: seq![EventView::Output(output)].add(run.events), ..run }
            },
            Act::Finish(value) => Run {
                state,
                rem: rest,
                awaiting: false,
                done: true,
                events: seq![EventView::Return(value)],
            },
        }
    }
}

/// The event sequence of a blueprint that has not run yet, over at most
/// `pulls` pulls, against the reply script `script`.
pub open spec fn events_of<Input, Output, B: Blueprint<Input, Output>>(
    blueprint: B,
    script: Seq<Input>,
    pulls: nat,
) -> Seq<EventView<Output, B::Return>> {
    run_to(blueprint, script, false, pulls).events
}

/// A return event only ever stands last: whatever the blueprint, the reply
/// script and the number of pulls, no item of the event sequence follows a
/// return event.
pub proof fn lemma_return_is_last<Input, Output, B: Blueprint<Input, Output>>(
    blueprint: B,
    script: Seq<Input>,
    awaiting: bool,
    pulls: nat,
    i: int,
)
    requires
        0 <= i < run_to(blueprint, script, awaiting, pulls).events.len(),
        run_to(blueprint, script, awaiting, pulls).events[i] is Return,
    ensures
        i == run_to(blueprint, script, awaiting, pulls).events.len() - 1,
    decreases pulls,
{
    let events = run_to(blueprint, script, awaiting, pulls).events;
    if pulls == 0 || (awaiting && script.len() == 0) {
        assert(events.len() == 0);
    } else {
        let input = if awaiting {
            Some(script[0])
        } else {
            None
        };
        let rest = if awaiting {
            script.drop_first()
        } else {
            script
        };
        let (state, act) = blueprint.transition(input);
        match act {
            Act::Request => {
                if i > 0 {
                    lemma_return_is_last(state, rest, true, (pulls - 1) as nat, i - 1);
                }
            },
            Act::Emit(_) => {
                if i > 0 {
                    lemma_return_is_last(state, rest, false, (pulls - 1) as nat, i - 1);
                }
            },
            Act::Finish(_) => {
                assert(events.len() == 1);
            },
        }
    }
}

/// A blueprint with zero suspension points — one whose first step finishes
/// outright — produces exactly one item, the return event with its result,
/// whatever the reply script, as soon as it is pulled at all.
pub proof fn lemma_zero_suspension_points<Input, Output, B: Blueprint<Input, Output>>(
    blueprint: B,
    state: B,
    value: B::Return,
    script: Seq<Input>,
    pulls: nat,
)
    requires
        blueprint.transition(None) == (state, Act::<Output, B::Return>::Finish(value)),
        pulls >= 1,
    ensures
        events_of(blueprint, script, pulls) == seq![
            EventView::<Output, B::Return>::Return(value),
        ],
{
}

/// Values appended to the script play no part in the pulls already run: a
/// run that has not returned and produced one event per pull ends the same
/// way, with the appended values left over.
pub proof fn lemma_longer_script<Input, Output, B: Blueprint<Input, Output>>(
    blueprint: B,
    script: Seq<Input>,
    extra: Seq<Input>,
    awaiting: bool,
    pulls: nat,
)
    requires
        !run_to(blueprint, script, awaiting, pulls).done,
        run_to(blueprint, script, awaiting, pulls).events.len() == pulls,
    ensures
        ({
            let run = run_to(blueprint, script, awaiting, pulls);
            let wider = run_to(blueprint, script.add(extra), awaiting, pulls);
            &&& wider.state == run.state
            &&& wider.rem == run.rem.add(extra)
            &&& wider.awaiting == run.awaiting
            &&& wider.done == run.done
            &&& wider.events == run.events
        }),
    decreases pulls,
{
    let run = run_to(blueprint, script, awaiting, pulls);
    if pulls == 0 {
        assert(run_to(blueprint, script.add(extra), awaiting, pulls).rem =~= script.add(extra));
    } else {
        // The run produced one event per pull, so it was never left waiting
        // with an exhausted script.
        assert(!(awaiting && script.len() == 0));
        let input = if awaiting {
            Some(script[0])
        } else {
            None
        };
        let rest = if awaiting {
            script.drop_first()
        } else {
            script
        };
        if awaiting {
            assert(script.add(extra)[0] == script[0]);
            assert(script.add(extra).drop_first() =~= rest.add(extra));
        } else {
            assert(script.add(extra) =~= rest.add(extra));
        }
        let (state, act) = blueprint.transition(input);
        match act {
            Act::Request => {
                lemma_longer_script(state, rest, extra, true, (pulls - 1) as nat);
            },
            Act::Emit(_) => {
                lemma_longer_script(state, rest, extra, false, (pulls - 1) as nat);
            },
            Act::Finish(_) => {
                assert(run.done);
            },
        }
    }
}

/// One more pull of a run that has not returned, and is not left waiting
/// with an exhausted script, appends exactly one event, decided by the
/// blueprint's `transition` on the head of the remaining script.
pub proof fn lemma_one_more_pull<Input, Output, B: Blueprint<Input, Output>>(
    blueprint: B,
    script: Seq<Input>,
    awaiting: bool,
    pulls: nat,
)
    requires
        !run_to(blueprint, script, awaiting, pulls).done,
        run_to(blueprint, script, awaiting, pulls).events.len() == pulls,
        !(run_to(blueprint, script, awaiting, pulls).awaiting && run_to(
            blueprint,
            script,
            awaiting,
            pulls,
        ).rem.len() == 0),
    ensures
        ({
            let run = run_to(blueprint, script, awaiting, pulls);
            let input = if run.awaiting {
                Some(run.rem[0])
            } else {
                None
            };
            let rest = if run.awaiting {
                run.rem.drop_first()
            } else {
                run.rem
            };
            let (state, act) = run.state.transition(input);
            let longer = run_to(blueprint, script, awaiting, (pulls + 1) as nat);
            &&& longer.state == state
            &&& longer.rem == rest
            &&& match act {
                Act::Request => {
                    &&& longer.awaiting
                    &&& !longer.done
                    &&& longer.events == run.events.push(
                        EventView::<Output, B::Return>::Input,
                    )
                },
                Act::Emit(output) => {
                    &&& !longer.awaiting
                    &&& !longer.done
                    &&& longer.events == run.events.push(
                        EventView::<Output, B::Return>::Output(output),
                    )
                },
                Act::Finish(value) => {
                    &&& !longer.awaiting
                    &&& longer.done
                    &&& longer.events == run.events.push(
                        EventView::<Output, B::Return>::Return(value),
                    )
                },
            }
        }),
    decreases pulls,
{
    let run = run_to(blueprint, script, awaiting, pulls);
    if pulls == 0 {
        let input = if awaiting {
            Some(script[0])
        } else {
            None
        };
        let rest = if awaiting {
            script.drop_first()
        } else {
            script
        };
        let (state, act) = blueprint.transition(input);
        match act {
            Act::Request => {
                assert(run_to(state, rest, true, 0nat).events.len() == 0);
                assert(run_to(blueprint, script, awaiting, 1nat).events =~= run.events.push(
                    EventView::<Output, B::Return>::Input,
                ));
            },
            Act::Emit(output) => {
                assert(run_to(state, rest, false, 0nat).events.len() == 0);
                assert(run_to(blueprint, script, awaiting, 1nat).events =~= run.events.push(
                    EventView::<Output, B::Return>::Output(output),
                ));
            },
            Act::Finish(value) => {
                assert(run_to(blueprint, script, awaiting, 1nat).events =~= run.events.push(
                    EventView::<Output, B::Return>::Return(value),
                ));
            },
        }
    } else {
        assert(!(awaiting && script.len() == 0));
        let input = if awaiting {
            Some(script[0])
        } else {
            None
        };
        let rest = if awaiting {
            script.drop_first()
        } else {
            script
        };
        let (state, act) = blueprint.transition(input);
        match act {
            Act::Request => {
                lemma_one_more_pull(state, rest, true, (pulls - 1) as nat);
                let sub = run_to(state, rest, true, (pulls - 1) as nat);
                let sub_longer = run_to(state, rest, true, pulls);
                assert(seq![EventView::<Output, B::Return>::Input].add(sub_longer.events)
                    =~= seq![EventView::<Output, B::Return>::Input].add(sub.events).push(
                    sub_longer.events.last(),
                ));
            },
            Act::Emit(output) => {
                lemma_one_more_pull(state, rest, false, (pulls - 1) as nat);
                let sub = run_to(state, rest, false, (pulls - 1) as nat);
                let sub_longer = run_to(state, rest, false, pulls);
                assert(seq![EventView::<Output, B::Return>::Output(output)].add(sub_longer.events)
                    =~= seq![EventView::<Output, B::Return>::Output(output)].add(sub.events).push(
                    sub_longer.events.last(),
                ));
            },
            Act::Finish(_) => {
                assert(run.done);
            },
        }
    }
}

} // verus!
