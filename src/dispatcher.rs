//! The public handle: the one way in to the worker, through its queue.
pub use crate::channel::MAX_CAPACITY;
use crate::channel::{bounded_queue, queue_bound, single_use_channel};
use crate::reply::{Reply, TransportError};
use crate::worker::Request;
use tokio::sync::mpsc;
use tokio::sync::oneshot;
use vstd::prelude::*;
use vstd::string::StringExecFns;

verus! {

/// Holds the sending side of the worker's queue, and nothing else: no path
/// leads from a caller to the engine but the queue.
pub struct JsExecutor {
    sender: mpsc::Sender<Request>,
}

impl JsExecutor {
    /// How many requests not yet taken the queue holds before submitters
    /// have to wait.
    pub closed spec fn capacity(&self) -> nat {
        queue_bound(self.sender)
    }

    /// A dispatcher and the receiving end of its queue, which holds up to
    /// `capacity` requests not yet taken before submitters have to wait.
    pub fn connect(capacity: usize) -> (r: (JsExecutor, mpsc::Receiver<Request>))
        requires
            0 < capacity <= MAX_CAPACITY,
        ensures
            r.0.capacity() == capacity,
    {
        let (sender, receiver) = bounded_queue(capacity);
        (JsExecutor { sender }, receiver)
    }

    /// The queue that requests are submitted on.
    pub fn queue(&self) -> &mpsc::Sender<Request> {
        &self.sender
    }
}

/// A request for the caller's own copy of `code`, with a fresh completion
/// slot, and the receiver on which the reply will arrive.
pub fn open_request(code: &str) -> (r: (Request, oneshot::Receiver<Reply>))
    ensures
        r.0.code@ == code@,
{
    let (slot, receiver) = single_use_channel();
    (Request { code: String::from_str(code), slot }, receiver)
}

/// Whether a request went into the queue: `SubmissionFailed` where the
/// worker side is gone.
pub fn submission(sent: Result<(), mpsc::error::SendError<Request>>) -> (r: Result<(), TransportError>)
    ensures
        sent is Ok ==> r is Ok,
        sent is Err ==> r == Err::<(), TransportError>(TransportError::SubmissionFailed),
{
    match sent {
        Ok(()) => Ok(()),
        Err(_) => Err(TransportError::SubmissionFailed),
    }
}

/// What a caller gets once its completion slot resolves: the worker's reply
/// unchanged, or `ResultUnavailable` where the slot was dropped unanswered.
pub fn settle(received: Result<Reply, oneshot::error::RecvError>) -> (r: Result<
    Reply,
    TransportError,
>)
    ensures
        received matches Ok(reply) ==> r == Ok::<Reply, TransportError>(reply),
        received is Err ==> r == Err::<Reply, TransportError>(TransportError::ResultUnavailable),
{
    match received {
        Ok(reply) => Ok(reply),
        Err(_) => Err(TransportError::ResultUnavailable),
    }
}

} // verus!
