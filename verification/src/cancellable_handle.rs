//! The handle of a running service.

use vstd::prelude::*;
use std::future::Future;
use std::ops::{Deref, DerefMut};
use std::pin::Pin;
use std::task::{Context, Poll};
use tokio::task::{JoinError, JoinHandle};
use tokio_util::sync::CancellationToken;

verus! {

/// `tokio_util::sync::CancellationToken`, the cancellation signal. Several
/// tokens may share one signal, so nothing is known here of what a token
/// holds.
#[verifier::external_type_specification]
#[verifier::external_body]
pub struct ExCancellationToken(CancellationToken);

/// `tokio::task::JoinHandle`, the owner's end of a spawned task.
#[verifier::external_type_specification]
#[verifier::external_body]
#[verifier::reject_recursive_types(T)]
pub struct ExJoinHandle<T>(JoinHandle<T>);

/// `tokio::task::JoinError`, which tells that a task did not run to its end.
#[verifier::external_type_specification]
#[verifier::external_body]
pub struct ExJoinError(JoinError);

/// `std::pin::Pin`, a pointer whose target stays where it is.
#[verifier::external_type_specification]
#[verifier::external_body]
#[verifier::reject_recursive_types(Ptr)]
pub struct ExPin<Ptr>(Pin<Ptr>);

/// `std::task::Context`, what an executor hands to the future it polls.
#[verifier::external_type_specification]
#[verifier::external_body]
pub struct ExContext<'a>(Context<'a>);

/// `std::task::Poll`, the answer of a polled future.
#[verifier::external_type_specification]
#[verifier::external_body]
#[verifier::reject_recursive_types(T)]
pub struct ExPoll<T>(Poll<T>);

/// Service handle that allows to feed the service, to cancel it, and to
/// await its end.
///
/// `H` is the service's own handle, through which it takes input, and `E` the
/// error that its steps may fail with. Every operation of `H` can be called
/// on this handle as if it were an `H`.
///
/// The handle is a future. Awaiting it yields `Ok` of the work loop's
/// outcome, or a `JoinError` where the task that hosted the loop was aborted
/// or panicked. Awaiting it does not guarantee that the service will ever
/// end: it is the caller's responsibility to ensure that the service either
/// is cancelled or ends on its own. Dropping the handle cancels nothing.
#[derive(Debug)]
#[verifier::reject_recursive_types(E)]
pub struct CancellableHandle<H, E> {
    join_handle: JoinHandle<Result<(), E>>,
    cancellation_token: CancellationToken,
    inner: H,
}

/// Calls `CancellationToken::cancel`, which cancels the token, its clones
/// and every token derived from it. It returns nothing, and the signal lives
/// in memory that the tokens share, so nothing is claimed of it.
#[verifier::external_body]
fn cancel_token(token: &CancellationToken) {
    token.cancel();
}

impl<H, E> CancellableHandle<H, E> {
    /// The service's own handle.
    pub closed spec fn handle(&self) -> H {
        self.inner
    }

    /// The token by which the service is cancelled.
    pub closed spec fn token(&self) -> CancellationToken {
        self.cancellation_token
    }

    /// The task that hosts the service's work loop.
    pub closed spec fn task(&self) -> JoinHandle<Result<(), E>> {
        self.join_handle
    }

    /// Puts together the handle of a service whose work loop runs in the task
    /// behind `join_handle` and listens to `cancellation_token`, and whose
    /// own handle is `inner`.
    pub fn new(
        join_handle: JoinHandle<Result<(), E>>,
        cancellation_token: CancellationToken,
        inner: H,
    ) -> (handle: Self)
        ensures
            handle.task() == join_handle,
            handle.token() == cancellation_token,
            handle.handle() == inner,
    {
        Self { join_handle, cancellation_token, inner }
    }

    /// Cancels the service from which this handle has been spawned.
    ///
    /// The call does not wait for the service to end: the work loop ends as
    /// soon as it notices the signal. Cancelling is not reversible, and
    /// cancelling again changes nothing.
    pub fn cancel(&self) {
        cancel_token(&self.cancellation_token);
    }

    /// The token by which this handle cancels its service.
    pub fn cancellation_token(&self) -> (token: &CancellationToken)
        ensures
            *token == self.token(),
    {
        &self.cancellation_token
    }
}

impl<H, E> Deref for CancellableHandle<H, E> {
    type Target = H;

    fn deref(&self) -> (inner: &H)
        ensures
            *inner == self.handle(),
    {
        &self.inner
    }
}

impl<H, E> DerefMut for CancellableHandle<H, E> {
    fn deref_mut(&mut self) -> (inner: &mut H)
        ensures
            *inner == old(self).handle(),
            final(self).handle() == *final(inner),
            final(self).token() == old(self).token(),
            final(self).task() == old(self).task(),
    {
        &mut self.inner
    }
}

/// No part of the handle relies on staying where it is: the task's end of a
/// `JoinHandle` may move, and the service's own handle is only ever lent out
/// by plain reference.
impl<H, E> Unpin for CancellableHandle<H, E> {
}

impl<H, E> Future for CancellableHandle<H, E> {
    type Output = Result<Result<(), E>, JoinError>;

    /// Polls the task behind the handle, by `JoinHandle`'s own `poll`. The
    /// answer is tokio's and nothing is claimed of it. As with every future,
    /// the handle is not to be polled again once it has yielded.
    #[verifier::external_body]
    fn poll(self: Pin<&mut Self>, cx: &mut Context<'_>) -> Poll<Self::Output> {
        Pin::new(&mut self.get_mut().join_handle).poll(cx)
    }
}

} // verus!
