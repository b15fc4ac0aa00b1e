//! Logical stack traces of suspended cooperative tasks.
//!
//! A task wrapped by [`traced`] can be asked, through the paired
//! [`TraceHandle`], what it is currently waiting on. The wrapper services
//! such requests during its next drive step: it drains every request queued
//! at the step's start, drives the inner task once with a substituted wake
//! callback, and every leaf suspension point that clones that callback
//! records one stack frame. The frames recorded during that single step
//! merge into a tree that mirrors the task's call and fan-out structure at
//! that instant, and the tree is delivered to each drained request through
//! its own one-shot reply slot.
//!
//! Two ghost names tie the moving parts together. A *queue id* names the
//! request queue a wrapper and its handle share: the trusted channel
//! constructor stamps both ends of the one queue it creates with the same
//! id, only requests stamped with a queue's id enter it, and every request
//! a wrapper drains carries its own queue's id. A *slot id* names a reply
//! slot: the trusted slot constructor stamps a request and the receiver
//! returned for it with the same id, so the slot a requester holds is the
//! very one its request carries the sending half of.
//!
//! The [`model`] module states and proves what one capture records for a
//! task of a given suspension structure; the [`waker`] module states and
//! proves the substitution protocol that makes leaf suspension points — and
//! only leaf suspension points — responsible for recording frames.

use vstd::prelude::*;

mod bridge;
pub mod model;
pub mod waker;

verus! {

/// The sending end of a request queue, stamped with the ghost id of the
/// queue it belongs to.
pub struct RequestSender {
    pub(crate) tx: futures_channel::mpsc::UnboundedSender<TraceRequest>,
    pub(crate) queue: Ghost<nat>,
}

/// The receiving end of a request queue, stamped with the ghost id of the
/// queue it belongs to.
pub struct RequestReceiver {
    pub(crate) rx: futures_channel::mpsc::UnboundedReceiver<TraceRequest>,
    pub(crate) queue: Ghost<nat>,
}

/// A capture request on its way from a handle to its wrapper. It carries
/// the sending half of the one-shot reply slot through which the captured
/// tree travels back to the requester.
pub struct TraceRequest {
    pub(crate) reply: futures_channel::oneshot::Sender<scoped_trace::Trace>,
    pub(crate) slot: Ghost<nat>,
    pub(crate) queue: Ghost<nat>,
}

impl TraceRequest {
    /// The reply slot this request's sending half belongs to.
    pub closed spec fn slot_id(self) -> nat {
        self.slot@
    }

    /// The request queue this request was issued into.
    pub closed spec fn queue_id(self) -> nat {
        self.queue@
    }

    /// Delivers the tree captured for this request, consuming the request's
    /// half of its reply slot — the slot is fulfilled or freed, never
    /// leaked. Returns false when the requester has meanwhile given up —
    /// dropped the receiving half — in which case the tree is discarded; an
    /// abandoned request never fails the task.
    pub fn respond(self, trace: scoped_trace::Trace) -> bool {
        bridge::send_reply(self.reply, trace)
    }
}

/// The receiving half of a reply slot, held by the requester while its
/// request is outstanding.
pub struct ReplyReceiver {
    pub(crate) rx: futures_channel::oneshot::Receiver<scoped_trace::Trace>,
    pub(crate) slot: Ghost<nat>,
    pub(crate) queue: Ghost<nat>,
}

impl ReplyReceiver {
    /// The reply slot this is the receiving half of.
    pub closed spec fn slot_id(self) -> nat {
        self.slot@
    }

    /// The request queue the paired request was issued into.
    pub closed spec fn queue_id(self) -> nat {
        self.queue@
    }

    /// Hands out the bare receiving end, for a caller that wants to suspend
    /// on it rather than poll it through [`read_reply`].
    pub fn into_inner(self) -> futures_channel::oneshot::Receiver<scoped_trace::Trace> {
        self.rx
    }
}

/// The requester's end of the pairing made by [`traced`]: it issues capture
/// requests into the wrapper's queue.
pub struct TraceHandle {
    pub(crate) req_tx: RequestSender,
}

impl TraceHandle {
    /// The request queue this handle issues into: the one its paired
    /// wrapper drains.
    pub closed spec fn queue_id(self) -> nat {
        self.req_tx.queue@
    }

    /// Issues one capture request and hands back the receiving half of the
    /// reply slot the answer will arrive through; the request itself
    /// carries the sending half of that same slot into this handle's queue.
    /// Returns None when the wrapped task has already been dropped, so the
    /// request could never be serviced — the "no answer" outcome, never a
    /// fault. Issuing a request does not block and does not disturb the
    /// task; the wrapper observes the request the next time it is driven.
    pub fn request_backtrace(&self) -> (r: Option<ReplyReceiver>)
        ensures
            r matches Some(rx) ==> rx.queue_id() == self.queue_id(),
    {
        let (req, rx) = bridge::reply_channel();
        let req = TraceRequest { reply: req.reply, slot: req.slot, queue: Ghost(self.queue_id()) };
        let rx = ReplyReceiver { rx: rx.rx, slot: rx.slot, queue: Ghost(self.queue_id()) };
        if bridge::send_request(&self.req_tx, req) {
            Some(rx)
        } else {
            None
        }
    }
}

/// What a reply slot holds when read without suspending.
pub enum Reply {
    /// No answer yet: the request has not been serviced, but the wrapper is
    /// still alive, so a later read may find one.
    NotYet,
    /// The captured tree.
    Answer(scoped_trace::Trace),
    /// No answer will ever come: the wrapper stopped being driven — or was
    /// dropped — before servicing the request. A normal outcome, not a
    /// fault.
    NoAnswer,
}

/// Reads a reply slot without suspending: the non-blocking way to learn
/// whether the capture requested through this slot has been delivered yet,
/// has been abandoned, or is still owed.
pub fn read_reply(rx: &mut ReplyReceiver) -> (r: Reply)
    ensures
        final(rx).slot_id() == old(rx).slot_id(),
        final(rx).queue_id() == old(rx).queue_id(),
{
    bridge::try_recv_reply(rx)
}

/// A task wrapped for tracing: the inner computation together with the
/// queue its capture requests arrive through. A drop-in stand-in for the
/// task it wraps — it is driven by the same scheduling discipline, and each
/// drive step begins by draining the pending requests, without blocking.
pub struct TracedTask<F> {
    /// The inner computation, exclusively owned by the wrapper for its
    /// whole lifetime.
    pub fut: F,
    pub(crate) req_rx: RequestReceiver,
}

impl<F> TracedTask<F> {
    /// The request queue this wrapper drains: the one its paired handle
    /// issues into.
    pub closed spec fn queue_id(self) -> nat {
        self.req_rx.queue@
    }

    /// The inner computation, as the contracts see it.
    pub closed spec fn task(self) -> F {
        self.fut
    }

    /// One pending-check: observes, without blocking, whether a capture
    /// request is waiting in this wrapper's own queue. When none is found
    /// the given wake callback is left registered with the queue, so a
    /// later request forces a re-drive. The check never touches the inner
    /// task.
    pub fn poll_request(&mut self, cx: &mut core::task::Context<'_>) -> (r: Option<
        TraceRequest,
    >)
        ensures
            final(self).task() == old(self).task(),
            final(self).queue_id() == old(self).queue_id(),
            r matches Some(req) ==> req.queue_id() == old(self).queue_id(),
    {
        bridge::poll_next_request(&mut self.req_rx, cx)
    }

    /// The start of a drive step: drains the requests pending in this
    /// wrapper's queue, in arrival order, so that the step can capture once
    /// per request. Each drained request carries this wrapper's own queue
    /// id — a request issued into another pairing's queue never appears
    /// here. When the queue runs empty the wake callback stays registered
    /// with it, and the inner task is untouched either way. `max` bounds
    /// the drain so that it provably ends; a drive step passes the largest
    /// bound, and more requests than the machine can address never fit in
    /// a queue, so that drains everything pending at the step's start.
    pub fn drain_requests(&mut self, cx: &mut core::task::Context<'_>, max: usize) -> (reqs:
        Vec<TraceRequest>)
        ensures
            final(self).task() == old(self).task(),
            final(self).queue_id() == old(self).queue_id(),
            reqs@.len() <= max,
            forall|i: int|
                0 <= i < reqs@.len() ==> reqs@[i].queue_id() == old(self).queue_id(),
    {
        let mut reqs: Vec<TraceRequest> = Vec::new();
        while reqs.len() < max
            invariant
                self.task() == old(self).task(),
                self.queue_id() == old(self).queue_id(),
                reqs@.len() <= max,
                forall|i: int|
                    0 <= i < reqs@.len() ==> reqs@[i].queue_id() == old(self).queue_id(),
            decreases max - reqs.len(),
        {
            match self.poll_request(cx) {
                Some(req) => reqs.push(req),
                None => { return reqs; },
            }
        }
        reqs
    }
}

/// Wraps a task for tracing: takes ownership of the task and returns the
/// wrapper that is to be driven in its place, paired with the handle that
/// requests captures from it. The two halves share one request queue —
/// they carry the same queue id — so what the handle issues is exactly
/// what the wrapper drains.
pub fn traced<F>(fut: F) -> (r: (TracedTask<F>, TraceHandle))
    ensures
        r.0.task() == fut,
        r.0.queue_id() == r.1.queue_id(),
{
    let (req_tx, req_rx) = bridge::request_channel();
    (TracedTask { fut, req_rx }, TraceHandle { req_tx })
}

} // verus!
