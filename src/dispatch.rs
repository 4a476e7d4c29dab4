//! The request side: the errors a caller can see, the work item that
//! travels through the queue, and how each outcome reaches the caller.

use vstd::prelude::*;
use crate::image::DecodeError;

verus! {

/// Failures of the hand-off between a caller and the pool.
#[derive(Debug, Clone, Copy, PartialEq, Eq, Structural)]
pub enum DispatchError {
    /// The queue was closed when the item was submitted; nothing was queued.
    QueueClosed,
    /// The item was admitted, but its reply channel closed without a value
    /// (the worker died, or the pool shut down with the item in hand).
    NoReply,
}

/// A failure that a worker reports as the reply to one item.
#[derive(Debug, Clone, Copy, PartialEq, Eq, Structural)]
pub enum WorkerError {
    /// The model rejected or failed on this input.
    ComputeFailed,
}

/// Every way a request can fail, from decoding to reply.
#[derive(Debug, Clone, Copy, PartialEq, Eq, Structural)]
pub enum RequestError {
    Decode(DecodeError),
    Dispatch(DispatchError),
    Worker(WorkerError),
}

/// One unit of queued work: an input and the sending half of its private,
/// single-use reply channel.
pub struct WorkItem<I, R> {
    pub input: I,
    pub reply: R,
}

/// The reply a worker sends for one run of the model: the output, or
/// `ComputeFailed` whatever the model's own error was.
pub fn reply_for<O, E>(result: Result<O, E>) -> (r: Result<O, WorkerError>)
    ensures
        result is Ok ==> r == Ok::<O, WorkerError>(result->Ok_0),
        result is Err ==> r == Err::<O, WorkerError>(WorkerError::ComputeFailed),
{
    match result {
        Ok(o) => Ok(o),
        Err(_) => Err(WorkerError::ComputeFailed),
    }
}

/// What a waiting caller makes of its reply channel: `None` when the channel
/// closed without a value, else the value the worker sent.
pub fn settle<O>(received: Option<Result<O, WorkerError>>) -> (r: Result<O, RequestError>)
    ensures
        received is None ==> r == Err::<O, RequestError>(
            RequestError::Dispatch(DispatchError::NoReply),
        ),
        received matches Some(Ok(o)) ==> r == Ok::<O, RequestError>(o),
        received matches Some(Err(e)) ==> r == Err::<O, RequestError>(RequestError::Worker(e)),
{
    match received {
        None => Err(RequestError::Dispatch(DispatchError::NoReply)),
        Some(Ok(o)) => Ok(o),
        Some(Err(e)) => Err(RequestError::Worker(e)),
    }
}

pub const STATUS_OK: u16 = 200;

pub const STATUS_BAD_REQUEST: u16 = 400;

pub const STATUS_UNPROCESSABLE: u16 = 422;

pub const STATUS_UNAVAILABLE: u16 = 503;

/// The HTTP status class of an error: a malformed body is a bad request, an
/// input the model failed on cannot be processed, and a missing pool or
/// reply means the service is unavailable.
pub open spec fn status_of_error(e: RequestError) -> u16 {
    match e {
        RequestError::Decode(_) => STATUS_BAD_REQUEST,
        RequestError::Worker(_) => STATUS_UNPROCESSABLE,
        RequestError::Dispatch(_) => STATUS_UNAVAILABLE,
    }
}

/// The HTTP status of a request's outcome.
pub fn status_code<O>(outcome: &Result<O, RequestError>) -> (s: u16)
    ensures
        outcome is Ok ==> s == STATUS_OK,
        outcome matches Err(e) ==> s == status_of_error(*e),
{
    match outcome {
        Ok(_) => STATUS_OK,
        Err(RequestError::Decode(_)) => STATUS_BAD_REQUEST,
        Err(RequestError::Worker(_)) => STATUS_UNPROCESSABLE,
        Err(RequestError::Dispatch(_)) => STATUS_UNAVAILABLE,
    }
}

} // verus!
