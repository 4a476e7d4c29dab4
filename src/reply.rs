//! The single-use reply channel of a request, and the two steps that touch
//! it: the dispatcher's submission, which creates it, and the worker's
//! answer, which writes it at most once.
//!
//! The channel is tokio's oneshot channel.  Whether a send reaches the
//! waiting side depends on the other thread, so nothing is claimed of it
//! but what holds either way.

use vstd::prelude::*;
use tokio::sync::oneshot::{Receiver, Sender};
use crate::dispatch::{reply_for, DispatchError, WorkItem, WorkerError};
use crate::model::Phase;
use crate::pool::Pool;

verus! {

/// tokio's oneshot sending half, carried unopened inside a queued item.
#[verifier::external_type_specification]
#[verifier::external_body]
#[verifier::reject_recursive_types(T)]
pub struct ExSender<T>(Sender<T>);

/// tokio's oneshot receiving half, handed to the waiting caller.
#[verifier::external_type_specification]
#[verifier::external_body]
#[verifier::reject_recursive_types(T)]
pub struct ExReceiver<T>(Receiver<T>);

/// What awaiting a receiver yields when its sender went away unanswered;
/// named by the receiver's `Future` impl.
#[verifier::external_type_specification]
#[verifier::external_body]
pub struct ExRecvError(tokio::sync::oneshot::error::RecvError);

/// Relies on tokio::sync::oneshot::channel: a fresh pair of connected
/// halves.  Nothing about them is claimed.
pub assume_specification<T>[ tokio::sync::oneshot::channel::<T> ]() -> (Sender<T>, Receiver<T>);

/// Relies on tokio::sync::oneshot::Sender::send: it consumes the sender, so
/// at most one value is ever sent; when the receiver is gone it hands the
/// value back unchanged instead of failing.
pub assume_specification<T>[ Sender::<T>::send ](s: Sender<T>, t: T) -> (r: Result<(), T>)
    ensures
        r matches Err(x) ==> x == t,
;

/// What a worker sends back for one item.
pub type Answer<O> = Result<O, WorkerError>;

/// The queue's items when replies go over oneshot channels.
pub type Request<I, O> = WorkItem<I, Sender<Answer<O>>>;

/// The dispatcher's side of a submission: creates the item's reply channel,
/// queues the item with the sending half, and returns the receiving half to
/// wait on.  A closed pool refuses at once with `QueueClosed`; the item and
/// its sending half are then dropped, so nothing is left waiting on them.
pub fn submit_request<I, O>(pool: &mut Pool<Request<I, O>>, input: I) -> (r: Result<
    Receiver<Answer<O>>,
    DispatchError,
>)
    requires
        old(pool).wf(),
    ensures
        final(pool).wf(),
        old(pool)@.closed ==> r is Err && r->Err_0 == DispatchError::QueueClosed && final(pool)@
            == old(pool)@,
        !old(pool)@.closed ==> r is Ok && final(pool)@.submitted.len() == old(pool)@.submitted.len()
            + 1 && final(pool)@.submitted.last().input == input && final(pool)@ == old(
            pool,
        )@.submit(final(pool)@.submitted.last()),
{
    let (reply, waiting) = tokio::sync::oneshot::channel();
    let ghost item = WorkItem { input, reply };
    match pool.submit(WorkItem { input, reply }) {
        Ok(()) => {
            assert(pool@.submitted.last() == item);
            Ok(waiting)
        },
        Err(e) => Err(e),
    }
}

/// The worker's side of an answer: sends the reply for the outcome of the
/// model on the item it holds (`ComputeFailed` for any model error) and
/// becomes ready for the next item.  Returns whether the reply reached a
/// caller; when the caller has stopped waiting the send does nothing, and
/// the worker carries on all the same.
pub fn answer<I, O, E>(
    pool: &mut Pool<Request<I, O>>,
    w: usize,
    reply: Sender<Answer<O>>,
    result: Result<O, E>,
) -> (delivered: bool)
    requires
        old(pool).wf(),
        old(pool)@.has_phase(w as int, Phase::Busy),
    ensures
        final(pool).wf(),
        final(pool)@ == old(pool)@.finish(w as int, result is Err, delivered),
{
    let failed = result.is_err();
    let sent = reply.send(reply_for(result));
    let delivered = sent.is_ok();
    pool.finish(w, failed, delivered);
    delivered
}

} // verus!
