//! The decisions of a service's work loop.
//!
//! The loop that hosts a service waits, round after round, for whichever
//! comes first: the cancellation signal or the end of the service's next
//! step. Waiting is the host's business. What the loop makes of each round is
//! decided here.

use vstd::prelude::*;
use crate::cancellation_result::CancellationResult;

verus! {

/// What a round of the work loop has waited for.
#[derive(Debug, PartialEq, Eq)]
pub enum LoopEvent<T, E> {
    /// The cancellation signal came first. The step that was in flight is
    /// abandoned, however far it had come.
    Cancelled,
    /// The step finished first, with this result.
    Stepped(Result<CancellationResult<T>, E>),
}

/// The value that `event` holds for the callback, if any.
pub open spec fn yielded<T, E>(event: LoopEvent<T, E>) -> Option<T> {
    match event {
        LoopEvent::Stepped(Ok(CancellationResult::Item(value))) => Some(value),
        _ => None,
    }
}

/// How a round ends in which the callback has answered `verdict` to a
/// yielded value: the loop goes on (`None`) if the value was accepted, and
/// ends successfully if it was rejected.
pub open spec fn outcome_after_callback<T, E>(verdict: Result<(), T>) -> Option<Result<(), E>> {
    match verdict {
        Ok(()) => None,
        Err(_) => Some(Ok(())),
    }
}

/// How a round ends that has waited for `event`: `None` where the loop goes
/// on, and the loop's final outcome where it ends. `accepted` tells whether
/// the callback accepted the value of a round that yielded one; it has no
/// bearing on other rounds.
pub open spec fn outcome_of_round<T, E>(event: LoopEvent<T, E>, accepted: bool) -> Option<Result<(), E>> {
    match event {
        LoopEvent::Cancelled => Some(Ok(())),
        LoopEvent::Stepped(Ok(CancellationResult::Item(_))) => if accepted { None } else { Some(Ok(())) },
        LoopEvent::Stepped(Ok(CancellationResult::Continue)) => None,
        LoopEvent::Stepped(Ok(CancellationResult::Break)) => Some(Ok(())),
        LoopEvent::Stepped(Err(error)) => Some(Err(error)),
    }
}

/// The callback of a service that was started without one: it accepts every
/// value and drops it.
pub fn accept_all<T>(item: T) -> (verdict: Result<(), T>)
    ensures
        verdict == Ok::<(), T>(()),
{
    let _ = item;
    Ok(())
}

/// Decides how the round ends once the callback has answered.
///
/// An accepted value lets the loop go on. A rejected value ends the loop
/// successfully: the rejection is a request to stop and no failure, and the
/// rejected value is dropped here.
pub fn after_callback<T, E>(verdict: Result<(), T>) -> (outcome: Option<Result<(), E>>)
    ensures
        outcome == outcome_after_callback::<T, E>(verdict),
{
    match verdict {
        Ok(()) => None,
        Err(_) => Some(Ok(())),
    }
}

/// Settles one round of the work loop: makes of `event` what the loop is to
/// make of it, and tells whether and how the loop ends.
///
/// - Cancellation ends the loop successfully.
/// - A yielded value is handed to `callback`, and [`after_callback`] decides
///   on its answer.
/// - A step that asks to be run again lets the loop go on.
/// - A step that asks for the end ends the loop successfully.
/// - A failed step ends the loop with its failure, unchanged.
///
/// The result is `None` where the loop is to wait for its next round, and
/// the loop's final outcome where it has ended. To the verifier a callback
/// holds no state of its own, hence the last clause.
pub fn settle<T, E, F>(event: LoopEvent<T, E>, callback: &mut F) -> (outcome: Option<Result<(), E>>)
    where F: FnMut(T) -> Result<(), T>
    requires
        yielded(event) matches Some(value) ==> call_requires(*old(callback), (value,)),
    ensures
        match yielded(event) {
            Some(value) => exists|verdict: Result<(), T>| {
                &&& call_ensures(*old(callback), (value,), verdict)
                &&& outcome == outcome_of_round(event, verdict is Ok)
            },
            None => outcome == outcome_of_round(event, true),
        },
        *final(callback) == *old(callback),
{
    match event {
        LoopEvent::Cancelled => Some(Ok(())),
        LoopEvent::Stepped(Ok(CancellationResult::Item(value))) => {
            let verdict = callback(value);
            after_callback(verdict)
        },
        LoopEvent::Stepped(Ok(CancellationResult::Continue)) => None,
        LoopEvent::Stepped(Ok(CancellationResult::Break)) => Some(Ok(())),
        LoopEvent::Stepped(Err(error)) => Some(Err(error)),
    }
}

} // verus!
