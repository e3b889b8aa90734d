//! The outside types that the library carries and the calls it makes into
//! tokio's channels.
use crate::worker::Request;
use vstd::prelude::*;

verus! {

/// serde_json's dynamic value: what the engine produces on success. The
/// library only carries it.
#[verifier::external_type_specification]
#[verifier::external_body]
pub struct ExValue(serde_json::Value);

/// The sending half of tokio's single-use channel: a completion slot.
#[verifier::external_type_specification]
#[verifier::external_body]
#[verifier::reject_recursive_types(T)]
pub struct ExOneshotSender<T>(tokio::sync::oneshot::Sender<T>);

/// The receiving half of tokio's single-use channel.
#[verifier::external_type_specification]
#[verifier::external_body]
#[verifier::reject_recursive_types(T)]
pub struct ExOneshotReceiver<T>(tokio::sync::oneshot::Receiver<T>);

/// What awaiting a single-use channel yields when its sender went away
/// without sending.
#[verifier::external_type_specification]
#[verifier::external_body]
pub struct ExRecvError(tokio::sync::oneshot::error::RecvError);

/// The sending half of tokio's bounded multi-producer queue.
#[verifier::external_type_specification]
#[verifier::external_body]
#[verifier::reject_recursive_types(T)]
pub struct ExMpscSender<T>(tokio::sync::mpsc::Sender<T>);

/// The receiving half of tokio's bounded multi-producer queue.
#[verifier::external_type_specification]
#[verifier::external_body]
#[verifier::reject_recursive_types(T)]
pub struct ExMpscReceiver<T>(tokio::sync::mpsc::Receiver<T>);

/// What sending on the bounded queue yields once its receiver is gone: the
/// value that was not queued.
#[verifier::external_type_specification]
#[verifier::external_body]
#[verifier::reject_recursive_types(T)]
pub struct ExSendError<T>(tokio::sync::mpsc::error::SendError<T>);

/// Relies on tokio::sync::oneshot::channel: a fresh sender and receiver
/// pair. It cannot fail.
#[verifier::external_body]
pub(crate) fn single_use_channel<T>() -> (r: (
    tokio::sync::oneshot::Sender<T>,
    tokio::sync::oneshot::Receiver<T>,
)) {
    tokio::sync::oneshot::channel()
}

/// Relies on tokio::sync::oneshot::Sender::send: it consumes the sender and,
/// where the receiver is gone, hands the value back unchanged.
#[verifier::external_body]
pub(crate) fn send_once<T>(slot: tokio::sync::oneshot::Sender<T>, value: T) -> (r: Result<(), T>)
    ensures
        r matches Err(back) ==> back == value,
{
    slot.send(value)
}

/// The largest capacity that tokio's bounded queue accepts: the most permits
/// its semaphore can hold.
pub const MAX_CAPACITY: usize = usize::MAX >> 3;

/// The number of requests that a bounded queue was made to hold, as tokio's
/// `Sender::max_capacity` reports it.
pub uninterp spec fn queue_bound(q: tokio::sync::mpsc::Sender<Request>) -> nat;

/// Relies on tokio::sync::mpsc::channel: a bounded queue whose bound is the
/// given capacity. It panics on a capacity of zero or above its semaphore's
/// limit of permits.
#[verifier::external_body]
pub(crate) fn bounded_queue(capacity: usize) -> (r: (
    tokio::sync::mpsc::Sender<Request>,
    tokio::sync::mpsc::Receiver<Request>,
))
    requires
        0 < capacity <= MAX_CAPACITY,
    ensures
        queue_bound(r.0) == capacity,
{
    tokio::sync::mpsc::channel(capacity)
}

} // verus!
