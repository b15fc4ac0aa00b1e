//! Declarations of the outside types the coordination layer carries, and
//! the trusted wrappers around the channel primitives.
//!
//! Everything here crosses the boundary to shared, cross-context state: a
//! request queued by one execution context is observed by another, and a
//! reply slot may be abandoned by its reader at any moment. No wrapper
//! therefore promises which outcome a call has — two calls on the same
//! value may answer differently — only what shape every outcome has; the
//! verified layer above takes each outcome as an argument and decides from
//! there.
//!
//! What the wrappers do pin down is identity. The two constructors each
//! create one connected pair and stamp both halves with one ghost id: the
//! id names the queue, or the reply slot, that the two halves belong to.
//! The queue wrappers then keep the stamp truthful: a request enters a
//! queue only if it carries that queue's id (a precondition on the one
//! sending wrapper), and the queue hands out only values its own senders
//! put in, so whatever comes out carries the queue's id again.

use vstd::prelude::*;

verus! {

#[verifier::external_type_specification]
#[verifier::external_body]
#[verifier::reject_recursive_types(T)]
pub struct ExUnboundedSender<T>(futures_channel::mpsc::UnboundedSender<T>);

#[verifier::external_type_specification]
#[verifier::external_body]
#[verifier::reject_recursive_types(T)]
pub struct ExUnboundedReceiver<T>(futures_channel::mpsc::UnboundedReceiver<T>);

#[verifier::external_type_specification]
#[verifier::external_body]
#[verifier::reject_recursive_types(T)]
pub struct ExOneshotSender<T>(futures_channel::oneshot::Sender<T>);

#[verifier::external_type_specification]
#[verifier::external_body]
#[verifier::reject_recursive_types(T)]
pub struct ExOneshotReceiver<T>(futures_channel::oneshot::Receiver<T>);

#[verifier::external_type_specification]
#[verifier::external_body]
pub struct ExCanceled(futures_channel::oneshot::Canceled);

#[verifier::external_type_specification]
#[verifier::external_body]
pub struct ExTrace(scoped_trace::Trace);

#[verifier::external_type_specification]
#[verifier::external_body]
pub struct ExContext<'a>(core::task::Context<'a>);

/// Relies on futures_channel::mpsc::unbounded: returns the two ends of one
/// fresh multi-producer, single-consumer queue, connected to each other.
/// The shared ghost id names that one queue, so the two returned halves
/// carry the same id.
#[verifier::external_body]
pub(crate) fn request_channel() -> (r: (crate::RequestSender, crate::RequestReceiver))
    ensures
        r.0.queue == r.1.queue,
{
    let (tx, rx) = futures_channel::mpsc::unbounded();
    (
        crate::RequestSender { tx, queue: Ghost(0) },
        crate::RequestReceiver { rx, queue: Ghost(0) },
    )
}

/// Relies on futures_channel::mpsc::UnboundedSender::unbounded_send: queues
/// the request for the consumer, waking any waker the consumer registered,
/// and returns Ok exactly when the consumer end is still open; the queue
/// never blocks the sender. Openness is decided by the consumer from
/// another execution context, so nothing relates it to the arguments. The
/// precondition keeps the queue stamps truthful: only requests carrying
/// this queue's id enter it — this wrapper is the one place requests are
/// sent.
#[verifier::external_body]
pub(crate) fn send_request(tx: &crate::RequestSender, req: crate::TraceRequest) -> bool
    requires
        req.queue == tx.queue,
{
    tx.tx.unbounded_send(req).is_ok()
}

/// Relies on futures_core::Stream::poll_next for
/// futures_channel::mpsc::UnboundedReceiver: yields queued requests in
/// arrival order, one per call; when none is queued it registers the given
/// waker and reports nothing, and it also reports nothing once every sender
/// is gone and the queue is drained. The two "nothing pending" outcomes
/// both call for an ordinary drive step, so they are not told apart. A
/// queue hands out only values its own senders put in, and only requests
/// stamped with the queue's id enter it (see [`send_request`]), so
/// whatever comes out carries this receiver's own queue id.
#[verifier::external_body]
pub(crate) fn poll_next_request(
    rx: &mut crate::RequestReceiver,
    cx: &mut core::task::Context<'_>,
) -> (r: Option<crate::TraceRequest>)
    ensures
        final(rx).queue == old(rx).queue,
        r matches Some(req) ==> req.queue == old(rx).queue,
{
    match futures_core::Stream::poll_next(core::pin::Pin::new(&mut rx.rx), cx) {
        core::task::Poll::Ready(Some(req)) => Some(req),
        core::task::Poll::Ready(None) => None,
        core::task::Poll::Pending => None,
    }
}

/// Relies on futures_channel::oneshot::channel: returns the two halves of
/// one fresh one-shot reply slot, connected to each other. The shared
/// ghost id names that one slot, so the request built around the sending
/// half and the receiver built around the receiving half carry the same
/// id; the queue stamps are left for the caller to fill in.
#[verifier::external_body]
pub(crate) fn reply_channel() -> (r: (crate::TraceRequest, crate::ReplyReceiver))
    ensures
        r.0.slot == r.1.slot,
{
    let (tx, rx) = futures_channel::oneshot::channel();
    (
        crate::TraceRequest { reply: tx, slot: Ghost(0), queue: Ghost(0) },
        crate::ReplyReceiver { rx, slot: Ghost(0), queue: Ghost(0) },
    )
}

/// Relies on futures_channel::oneshot::Sender::send: consumes the slot's
/// sending half, fulfils the slot and returns Ok exactly when the receiving
/// half still exists; when the receiver was dropped the value is handed
/// back in Err and simply discarded here. Either way the call returns — it
/// never blocks or panics — and the sending half is gone afterwards, so
/// the slot is never leaked.
#[verifier::external_body]
pub(crate) fn send_reply(
    tx: futures_channel::oneshot::Sender<scoped_trace::Trace>,
    trace: scoped_trace::Trace,
) -> bool {
    tx.send(trace).is_ok()
}

/// Relies on futures_channel::oneshot::Receiver::try_recv: reports the
/// delivered value once, nothing while the sender is still live, and
/// cancellation once the sender was dropped without sending — the three
/// variants map one-for-one onto [`crate::Reply`]. The receiver keeps
/// standing for the same slot afterwards.
#[verifier::external_body]
pub(crate) fn try_recv_reply(rx: &mut crate::ReplyReceiver) -> (r: crate::Reply)
    ensures
        final(rx).slot == old(rx).slot,
        final(rx).queue == old(rx).queue,
{
    match rx.rx.try_recv() {
        Ok(Some(trace)) => crate::Reply::Answer(trace),
        Ok(None) => crate::Reply::NotYet,
        Err(_) => crate::Reply::NoAnswer,
    }
}

} // verus!
