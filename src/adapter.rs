//! The suspending form of a flow: a result channel and the flow's cancel
//! handle, settled by polling.
use vstd::prelude::*;

use crate::error::Error;
use futures::channel::oneshot::{Canceled, Receiver, Sender};
use url::Url;

verus! {

#[verifier::external_type_specification]
#[verifier::external_body]
#[verifier::reject_recursive_types(T)]
pub struct ExSender<T>(futures::channel::oneshot::Sender<T>);

#[verifier::external_type_specification]
#[verifier::external_body]
#[verifier::reject_recursive_types(T)]
pub struct ExReceiver<T>(futures::channel::oneshot::Receiver<T>);

#[verifier::external_type_specification]
#[verifier::external_body]
pub struct ExCanceled(futures::channel::oneshot::Canceled);

/// Relies on `futures::channel::oneshot::Sender::send`: when the receiver is
/// gone it fails and hands the value back.
#[verifier::external_body]
fn oneshot_send(sender: Sender<Result<Url, Error>>, value: Result<Url, Error>) -> (r: Result<
    (),
    Result<Url, Error>,
>)
    ensures
        r is Err ==> r->Err_0 == value,
{
    sender.send(value)
}

/// Puts a flow's result into its channel; a no-op when the receiving side is
/// gone. Returns whether the value was enqueued.
pub fn send_result(sender: Sender<Result<Url, Error>>, value: Result<Url, Error>) -> (sent: bool) {
    match oneshot_send(sender, value) {
        Ok(()) => true,
        Err(_) => false,
    }
}

/// What the receiving side yields: the value sent, or `Aborted` when the
/// sender was dropped without sending.
pub open spec fn received(polled: Result<Result<Url, Error>, Canceled>, r: Result<Url, Error>) -> bool {
    match polled {
        Ok(v) => r == v,
        Err(_) => r matches Err(Error::Aborted),
    }
}

/// Turns what the channel produced into the flow's result.
pub fn resolve(polled: Result<Result<Url, Error>, Canceled>) -> (r: Result<Url, Error>)
    ensures
        received(polled, r),
{
    match polled {
        Ok(v) => v,
        Err(_) => Err(Error::Aborted),
    }
}

/// A flow in its suspending form: the receiving half of its result channel,
/// and how starting it went (its cancel handle, or the error it failed with).
///
/// A start error is reported by the first poll. When the result arrives the
/// cancel handle is released; dropping the adapter before that releases it
/// too, which cancels the flow.
pub struct AuthenticationFuture<T> {
    /// The channel the flow's result arrives on; poll it, then `settle`.
    pub receiver: Receiver<Result<Url, Error>>,
    started: Option<Result<T, Error>>,
}

impl<T> AuthenticationFuture<T> {
    /// The cancel handle still held, or the start error not yet reported.
    pub closed spec fn start(&self) -> Option<Result<T, Error>> {
        self.started
    }

    /// The channel the result arrives on.
    pub closed spec fn channel(&self) -> Receiver<Result<Url, Error>> {
        self.receiver
    }

    pub fn new(receiver: Receiver<Result<Url, Error>>, started: Result<T, Error>) -> (r: Self)
        ensures
            r.start() == Some(started),
            r.channel() == receiver,
    {
        AuthenticationFuture { receiver, started: Some(started) }
    }

    /// Hands out, once, the error the flow failed to start with. Call before
    /// polling the channel.
    pub fn take_start_error(&mut self) -> (r: Option<Error>)
        ensures
            final(self).channel() == old(self).channel(),
            match old(self).start() {
                Some(Err(e)) => r == Some(e) && final(self).start() is None,
                _ => r is None && final(self).start() == old(self).start(),
            },
    {
        match self.started.take() {
            Some(Err(e)) => Some(e),
            other => {
                self.started = other;
                None
            },
        }
    }

    /// Settles after a poll of the channel: `None` (still pending) changes
    /// nothing; a value releases the cancel handle and yields the flow's
    /// result.
    pub fn settle(&mut self, polled: Option<Result<Result<Url, Error>, Canceled>>) -> (r: Option<
        Result<Url, Error>,
    >)
        ensures
            final(self).channel() == old(self).channel(),
            polled is None ==> r is None && final(self).start() == old(self).start(),
            polled is Some ==> r is Some && received(polled->Some_0, r->Some_0)
                && final(self).start() is None,
    {
        match polled {
            None => None,
            Some(p) => {
                self.started = None;
                Some(resolve(p))
            },
        }
    }
}

} // verus!
