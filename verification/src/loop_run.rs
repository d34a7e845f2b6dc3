//! A mathematical account of a whole run of the work loop, and what holds of
//! every run.
//!
//! A run is told by the events that its rounds waited for, in order, and by
//! the callback's answers. The account folds
//! [`outcome_of_round`](crate::work_loop::outcome_of_round), the very
//! function by which [`settle`](crate::work_loop::settle) ends a round, over
//! the events.

use vstd::prelude::*;
use crate::cancellation_result::CancellationResult;
use crate::work_loop::{outcome_of_round, yielded, LoopEvent};

verus! {

/// How far a work loop has come.
pub struct LoopRun<T, E> {
    /// The values handed to the callback so far, in the order in which it got
    /// them.
    pub delivered: Seq<T>,
    /// The number of rounds that the loop has been through.
    pub rounds: nat,
    /// The loop's final outcome, `None` as long as the loop goes on.
    pub outcome: Option<Result<(), E>>,
}

/// The loop before its first round.
pub open spec fn fresh<T, E>() -> LoopRun<T, E> {
    LoopRun { delivered: Seq::empty(), rounds: 0, outcome: None }
}

/// The loop after one more round has waited for `event`.
///
/// A loop that has ended stays as it is: it waits for nothing any more. In a
/// loop that goes on, a yielded value is handed to the callback, and
/// `accepts(n, value)` tells whether the callback accepts `value` after it
/// has been handed `n` values before.
pub open spec fn after_round<T, E>(
    run: LoopRun<T, E>,
    event: LoopEvent<T, E>,
    accepts: spec_fn(nat, T) -> bool,
) -> LoopRun<T, E> {
    if run.outcome is Some {
        run
    } else {
        match yielded(event) {
            Some(value) => LoopRun {
                delivered: run.delivered.push(value),
                rounds: run.rounds + 1,
                outcome: outcome_of_round(event, accepts(run.delivered.len(), value)),
            },
            None => LoopRun {
                delivered: run.delivered,
                rounds: run.rounds + 1,
                outcome: outcome_of_round(event, true),
            },
        }
    }
}

/// The loop after it has been offered `events`, one per round and in this
/// order, with a callback that answers as `accepts` tells.
pub open spec fn run_of<T, E>(
    events: Seq<LoopEvent<T, E>>,
    accepts: spec_fn(nat, T) -> bool,
) -> LoopRun<T, E>
    decreases events.len(),
{
    if events.len() == 0 {
        fresh()
    } else {
        after_round(run_of(events.drop_last(), accepts), events.last(), accepts)
    }
}

/// The values that `events` yield, in their order.
pub open spec fn values_yielded<T, E>(events: Seq<LoopEvent<T, E>>) -> Seq<T>
    decreases events.len(),
{
    if events.len() == 0 {
        Seq::empty()
    } else {
        match yielded(events.last()) {
            Some(value) => values_yielded(events.drop_last()).push(value),
            None => values_yielded(events.drop_last()),
        }
    }
}

/// A loop goes through at most one round per event, and through exactly one
/// per event as long as it goes on.
pub proof fn lemma_rounds_of_run<T, E>(
    events: Seq<LoopEvent<T, E>>,
    accepts: spec_fn(nat, T) -> bool,
)
    ensures
        run_of(events, accepts).rounds <= events.len(),
        run_of(events, accepts).outcome is None ==> run_of(events, accepts).rounds == events.len(),
        run_of(events, accepts).outcome is Some ==> run_of(events, accepts).rounds >= 1,
    decreases events.len(),
{
    if events.len() > 0 {
        lemma_rounds_of_run(events.drop_last(), accepts);
    }
}

/// A loop that has ended takes no notice of what is offered to it
/// afterwards.
pub proof fn lemma_ended_run_is_final<T, E>(
    events: Seq<LoopEvent<T, E>>,
    later: Seq<LoopEvent<T, E>>,
    accepts: spec_fn(nat, T) -> bool,
)
    requires
        run_of(events, accepts).outcome is Some,
    ensures
        run_of(events + later, accepts) == run_of(events, accepts),
    decreases later.len(),
{
    if later.len() == 0 {
        assert(events + later =~= events);
    } else {
        lemma_ended_run_is_final(events, later.drop_last(), accepts);
        assert((events + later).drop_last() =~= events + later.drop_last());
        assert((events + later).last() == later.last());
    }
}

/// The callback gets the yielded values in the order in which the steps
/// yielded them: what it has been handed is what the rounds that the loop
/// went through have yielded, value by value, none left out, none twice and
/// none out of place.
pub proof fn law_values_are_delivered_in_order<T, E>(
    events: Seq<LoopEvent<T, E>>,
    accepts: spec_fn(nat, T) -> bool,
)
    ensures
        run_of(events, accepts).rounds <= events.len(),
        run_of(events, accepts).delivered == values_yielded(
            events.take(run_of(events, accepts).rounds as int),
        ),
    decreases events.len(),
{
    lemma_rounds_of_run(events, accepts);
    if events.len() == 0 {
        assert(events.take(0) =~= events);
    } else {
        let before = events.drop_last();
        let earlier = run_of(before, accepts);
        law_values_are_delivered_in_order(before, accepts);
        lemma_rounds_of_run(before, accepts);
        if earlier.outcome is Some {
            assert(events.take(earlier.rounds as int) =~= before.take(earlier.rounds as int));
        } else {
            assert(before.take(before.len() as int) =~= before);
            assert(events.take(events.len() as int) =~= events);
        }
    }
}

/// A callback that accepts whatever it is handed gets every value of a run of
/// yielding steps, in the order of the steps.
pub proof fn law_accepted_values_arrive_in_order<T, E>(
    values: Seq<T>,
    accepts: spec_fn(nat, T) -> bool,
)
    requires
        forall|n: nat, value: T| #[trigger] accepts(n, value),
    ensures
        run_of(yielding::<T, E>(values), accepts).delivered == values,
        run_of(yielding::<T, E>(values), accepts).outcome is None,
    decreases values.len(),
{
    let events = yielding::<T, E>(values);
    if values.len() > 0 {
        law_accepted_values_arrive_in_order::<T, E>(values.drop_last(), accepts);
        assert(events.drop_last() =~= yielding::<T, E>(values.drop_last()));
        assert(values.drop_last().push(values.last()) =~= values);
    } else {
        assert(values =~= Seq::<T>::empty());
    }
}

/// The events of steps that yield `values`, one value per step.
pub open spec fn yielding<T, E>(values: Seq<T>) -> Seq<LoopEvent<T, E>> {
    Seq::new(values.len(), |i: int| LoopEvent::Stepped(Ok(CancellationResult::Item(values[i]))))
}

/// Once a step asks for the end of the loop, the loop ends successfully, and
/// no further step is taken, whatever would have followed.
pub proof fn law_break_ends_the_loop<T, E>(
    before: Seq<LoopEvent<T, E>>,
    later: Seq<LoopEvent<T, E>>,
    accepts: spec_fn(nat, T) -> bool,
)
    requires
        run_of(before, accepts).outcome is None,
    ensures
        ({
            let event = LoopEvent::<T, E>::Stepped(Ok(CancellationResult::Break));
            let run = run_of(before.push(event) + later, accepts);
            &&& run.outcome == Some(Ok::<(), E>(()))
            &&& run.rounds == before.len() + 1
            &&& run.delivered == run_of(before, accepts).delivered
        }),
{
    let event = LoopEvent::<T, E>::Stepped(Ok(CancellationResult::Break));
    lemma_last_round(before, event, accepts);
    lemma_ended_run_is_final(before.push(event), later, accepts);
}

/// Once a step fails, the loop ends with exactly that failure, and no further
/// step is taken, whatever would have followed.
pub proof fn law_failure_ends_the_loop<T, E>(
    before: Seq<LoopEvent<T, E>>,
    error: E,
    later: Seq<LoopEvent<T, E>>,
    accepts: spec_fn(nat, T) -> bool,
)
    requires
        run_of(before, accepts).outcome is None,
    ensures
        ({
            let event = LoopEvent::<T, E>::Stepped(Err(error));
            let run = run_of(before.push(event) + later, accepts);
            &&& run.outcome == Some(Err::<(), E>(error))
            &&& run.rounds == before.len() + 1
            &&& run.delivered == run_of(before, accepts).delivered
        }),
{
    let event = LoopEvent::<T, E>::Stepped(Err(error));
    lemma_last_round(before, event, accepts);
    lemma_ended_run_is_final(before.push(event), later, accepts);
}

/// Once the cancellation signal wins a round, the loop ends successfully,
/// whatever the abandoned step and the steps after it would have brought.
pub proof fn law_cancellation_ends_the_loop<T, E>(
    before: Seq<LoopEvent<T, E>>,
    later: Seq<LoopEvent<T, E>>,
    accepts: spec_fn(nat, T) -> bool,
)
    requires
        run_of(before, accepts).outcome is None,
    ensures
        ({
            let event = LoopEvent::<T, E>::Cancelled;
            let run = run_of(before.push(event) + later, accepts);
            &&& run.outcome == Some(Ok::<(), E>(()))
            &&& run.rounds == before.len() + 1
            &&& run.delivered == run_of(before, accepts).delivered
        }),
{
    let event = LoopEvent::<T, E>::Cancelled;
    lemma_last_round(before, event, accepts);
    lemma_ended_run_is_final(before.push(event), later, accepts);
}

/// A step that asks to be run again hands nothing to the callback and does
/// not end the loop.
pub proof fn law_continue_is_silent<T, E>(
    before: Seq<LoopEvent<T, E>>,
    accepts: spec_fn(nat, T) -> bool,
)
    requires
        run_of(before, accepts).outcome is None,
    ensures
        ({
            let event = LoopEvent::<T, E>::Stepped(Ok(CancellationResult::Continue));
            let run = run_of(before.push(event), accepts);
            &&& run.outcome is None
            &&& run.rounds == before.len() + 1
            &&& run.delivered == run_of(before, accepts).delivered
        }),
{
    let event = LoopEvent::<T, E>::Stepped(Ok(CancellationResult::Continue));
    lemma_last_round(before, event, accepts);
}

/// Once the callback rejects a value, the loop ends successfully. The
/// rejected value has been handed to the callback once, as the last one, and
/// neither it nor any later value is handed over again.
pub proof fn law_rejection_ends_the_loop<T, E>(
    before: Seq<LoopEvent<T, E>>,
    value: T,
    later: Seq<LoopEvent<T, E>>,
    accepts: spec_fn(nat, T) -> bool,
)
    requires
        run_of(before, accepts).outcome is None,
        !accepts(run_of(before, accepts).delivered.len(), value),
    ensures
        ({
            let event = LoopEvent::<T, E>::Stepped(Ok(CancellationResult::Item(value)));
            let run = run_of(before.push(event) + later, accepts);
            &&& run.outcome == Some(Ok::<(), E>(()))
            &&& run.rounds == before.len() + 1
            &&& run.delivered == run_of(before, accepts).delivered.push(value)
        }),
{
    let event = LoopEvent::<T, E>::Stepped(Ok(CancellationResult::Item(value)));
    lemma_last_round(before, event, accepts);
    lemma_ended_run_is_final(before.push(event), later, accepts);
}

/// An accepted value is handed to the callback and lets the loop go on.
pub proof fn law_accepted_value_keeps_the_loop<T, E>(
    before: Seq<LoopEvent<T, E>>,
    value: T,
    accepts: spec_fn(nat, T) -> bool,
)
    requires
        run_of(before, accepts).outcome is None,
        accepts(run_of(before, accepts).delivered.len(), value),
    ensures
        ({
            let event = LoopEvent::<T, E>::Stepped(Ok(CancellationResult::Item(value)));
            let run = run_of(before.push(event), accepts);
            &&& run.outcome is None
            &&& run.rounds == before.len() + 1
            &&& run.delivered == run_of(before, accepts).delivered.push(value)
        }),
{
    let event = LoopEvent::<T, E>::Stepped(Ok(CancellationResult::Item(value)));
    lemma_last_round(before, event, accepts);
}

/// The run that `event` is offered to last is the run of the events before
/// it, after one more round.
proof fn lemma_last_round<T, E>(
    before: Seq<LoopEvent<T, E>>,
    event: LoopEvent<T, E>,
    accepts: spec_fn(nat, T) -> bool,
)
    ensures
        run_of(before.push(event), accepts) == after_round(
            run_of(before, accepts),
            event,
            accepts,
        ),
        run_of(before, accepts).outcome is None ==> run_of(before, accepts).rounds
            == before.len(),
{
    assert(before.push(event).drop_last() =~= before);
    lemma_rounds_of_run(before, accepts);
}

} // verus!
