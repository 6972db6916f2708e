//! The single-producer single-consumer edge contract and its shared types.
//!
//! Every edge exposes an abstract model (`Edge::Model`) and spec functions that
//! say, for each operation, what the model becomes and what the operation
//! returns. The executable methods are verified against those functions, so code
//! that is generic over edges (links, priority lanes, endpoints, admission)
//! inherits exact behaviour from the edges it wraps.

use vstd::prelude::*;
use crate::batch::BatchView;
use crate::errors::QueueError;
use crate::message::{copy_of, Message, MessageHeader, Payload};
use crate::policy::{decision_of, AdmissionDecision, BatchingPolicy, EdgePolicy, WatermarkState, WindowKind};

pub mod link;
pub mod queue_state;
pub mod spsc_vecdeque;
pub mod spsc_ringbuf;
pub mod spsc_raw;
pub mod spsc_priority2;
pub mod spsc_concurrent;

verus! {

/// Result of an enqueue attempt.
#[derive(Debug, Clone, Copy, PartialEq, Eq, Structural)]
pub enum EnqueueResult {
    /// The item was enqueued.
    Enqueued,
    /// The item was dropped by policy.
    DroppedNewest,
    /// The item could not be enqueued (backpressure or full).
    Rejected,
}

/// Occupancy snapshot of an edge.
#[derive(Debug, Clone, Copy, PartialEq, Eq, Structural)]
pub struct EdgeOccupancy {
    /// Items currently queued.
    pub items: usize,
    /// Bytes currently accounted for.
    pub bytes: usize,
    /// Watermark level derived from the caps.
    pub watermark: WatermarkState,
}

impl EdgeOccupancy {
    /// Create an occupancy snapshot.
    pub fn new(items: usize, bytes: usize, watermark: WatermarkState) -> (o: EdgeOccupancy)
        ensures
            o == (EdgeOccupancy { items, bytes, watermark }),
    {
        EdgeOccupancy { items, bytes, watermark }
    }

    /// Items currently queued.
    pub fn items(&self) -> (n: &usize)
        ensures
            *n == self.items,
    {
        &self.items
    }

    /// Bytes currently accounted for.
    pub fn bytes(&self) -> (n: &usize)
        ensures
            *n == self.bytes,
    {
        &self.bytes
    }

    /// Watermark level.
    pub fn watermark(&self) -> (w: &WatermarkState)
        ensures
            *w == self.watermark,
    {
        &self.watermark
    }
}

/// Single-item peek result: a borrow into the edge, or an owned copy.
#[derive(Debug)]
pub enum PeekResponse<'a, I> {
    /// Zero-copy borrow of the queued item.
    Borrowed(&'a I),
    /// An owned item handed out by the edge.
    Owned(I),
}

impl<'a, I> PeekResponse<'a, I> {
    /// The item this response stands for.
    pub open spec fn item(self) -> I {
        match self {
            PeekResponse::Borrowed(r) => *r,
            PeekResponse::Owned(o) => o,
        }
    }

    /// A reference to the item, whichever the variant.
    pub fn as_ref(&self) -> (r: &I)
        ensures
            *r == self.item(),
    {
        match self {
            PeekResponse::Borrowed(r) => r,
            PeekResponse::Owned(o) => o,
        }
    }
}

impl<'a, P: Payload> PeekResponse<'a, Message<P>> {
    /// The header of the peeked message.
    pub fn header(&self) -> (h: &MessageHeader)
        ensures
            *h == self.item().header,
    {
        &self.as_ref().header
    }

    /// The payload of the peeked message.
    pub fn payload(&self) -> (p: &P)
        ensures
            *p == self.item().payload,
    {
        &self.as_ref().payload
    }

    /// Turn into an owned message: the owned item itself, or a clone of the borrowed one.
    pub fn into_owned(self) -> (m: Message<P>)
        where P: Clone
        ensures
            self is Owned ==> m == self.item(),
            copy_of(self.item(), m),
    {
        match self {
            PeekResponse::Borrowed(b) => b.clone(),
            PeekResponse::Owned(o) => o,
        }
    }
}

impl<'a, I: Clone> Clone for PeekResponse<'a, I> {
    fn clone(&self) -> (c: Self)
        ensures
            self is Borrowed ==> c == *self,
            self is Owned ==> c is Owned && cloned::<I>(self.item(), c.item()),
    {
        match self {
            PeekResponse::Borrowed(r) => PeekResponse::Borrowed(r),
            PeekResponse::Owned(o) => PeekResponse::Owned(o.clone()),
        }
    }
}

/// A peek result agrees with the modelled result: the same item, or the same error.
pub open spec fn peek_agrees<P>(r: Result<PeekResponse<'_, Message<P>>, QueueError>, m: Result<Message<P>, QueueError>) -> bool {
    match (r, m) {
        (Ok(p), Ok(x)) => p.item() == x,
        (Err(e), Err(f)) => e == f,
        _ => false,
    }
}

/// A batch result agrees with the modelled result: for each modelled message the
/// batch holds that message or a clone of it, in order; or the same error.
pub open spec fn batch_agrees<P: Payload + Clone>(
    r: Result<BatchView<'_, P>, QueueError>,
    m: Result<Seq<Message<P>>, QueueError>,
) -> bool {
    match (r, m) {
        (Ok(b), Ok(orig)) => {
            &&& b.wf()
            &&& b.msgs().len() == orig.len()
            &&& forall|i: int| 0 <= i < orig.len() ==> copy_of(#[trigger] orig[i], b.msgs()[i])
        },
        (Err(e), Err(f)) => e == f,
        _ => false,
    }
}

/// A batch result hands out the modelled messages themselves (not clones), in order.
pub open spec fn batch_moved<P: Payload + Clone>(
    r: Result<BatchView<'_, P>, QueueError>,
    m: Result<Seq<Message<P>>, QueueError>,
) -> bool {
    match (r, m) {
        (Ok(b), Ok(orig)) => b.msgs() == orig,
        _ => true,
    }
}

/// A single-producer, single-consumer queue of messages.
///
/// Each implementation states its behaviour as spec functions over its model:
/// what a push, a pop, a peek, an occupancy sample and a batch pop return and
/// how the model changes.
pub trait Edge<P: Payload + Clone>: Sized {
    /// Abstract state of the edge.
    type Model;

    /// The current abstract state.
    spec fn model(&self) -> Self::Model;

    /// Internal consistency of the concrete state.
    spec fn well_formed(&self) -> bool;

    /// State after, and result of, pushing `item` under `policy`.
    spec fn push_model(m: Self::Model, item: Message<P>, policy: EdgePolicy) -> (Self::Model, EnqueueResult);

    /// State after, and result of, a pop.
    spec fn pop_model(m: Self::Model) -> (Self::Model, Result<Message<P>, QueueError>);

    /// Whether an occupancy sample can be computed without overflow.
    spec fn occupancy_defined(m: Self::Model) -> bool;

    /// The occupancy reported under `policy`.
    spec fn occupancy_model(m: Self::Model, policy: EdgePolicy) -> EdgeOccupancy;

    /// The message a peek at position `index` shows, or the error it reports.
    spec fn peek_model(m: Self::Model, index: int) -> Result<Message<P>, QueueError>;

    /// State after, and messages of, a batch pop under `policy`.
    spec fn batch_model(m: Self::Model, policy: BatchingPolicy) -> (Self::Model, Result<Seq<Message<P>>, QueueError>);

    /// Attempt to push an item.
    fn try_push(&mut self, item: Message<P>, policy: &EdgePolicy) -> (r: EnqueueResult)
        requires
            old(self).well_formed(),
        ensures
            final(self).well_formed(),
            (final(self).model(), r) == Self::push_model(old(self).model(), item, *policy),
    ;

    /// Attempt to pop the front item.
    fn try_pop(&mut self) -> (r: Result<Message<P>, QueueError>)
        requires
            old(self).well_formed(),
        ensures
            final(self).well_formed(),
            (final(self).model(), r) == Self::pop_model(old(self).model()),
    ;

    /// Occupancy snapshot for telemetry and admission.
    fn occupancy(&self, policy: &EdgePolicy) -> (o: EdgeOccupancy)
        requires
            self.well_formed(),
            Self::occupancy_defined(self.model()),
        ensures
            o == Self::occupancy_model(self.model(), *policy),
    ;

    /// Whether a peek at the front reports an empty edge.
    fn is_empty(&self) -> (b: bool)
        requires
            self.well_formed(),
        ensures
            b == (Self::peek_model(self.model(), 0) == Err::<Message<P>, QueueError>(QueueError::Empty)),
    {
        matches!(self.try_peek(), Err(QueueError::Empty))
    }

    /// Peek at the front item without removing it.
    fn try_peek(&self) -> (r: Result<PeekResponse<'_, Message<P>>, QueueError>)
        requires
            self.well_formed(),
        ensures
            peek_agrees(r, Self::peek_model(self.model(), 0)),
    ;

    /// Peek at the item `index` places behind the front without removing anything.
    fn try_peek_at(&self, index: usize) -> (r: Result<PeekResponse<'_, Message<P>>, QueueError>)
        requires
            self.well_formed(),
        ensures
            peek_agrees(r, Self::peek_model(self.model(), index as int)),
    ;

    /// Attempt to pop a batch according to `policy`.
    fn try_pop_batch(&mut self, policy: &BatchingPolicy) -> (r: Result<BatchView<'_, P>, QueueError>)
        requires
            old(self).well_formed(),
        ensures
            final(self).well_formed(),
            final(self).model() == Self::batch_model(old(self).model(), *policy).0,
            batch_agrees(r, Self::batch_model(old(self).model(), *policy).1),
            policy.window_kind == WindowKind::Disjoint ==> batch_moved(r, Self::batch_model(old(self).model(), *policy).1),
    ;
}

/// What `enqueue_with_admission` does for a given admission decision: drop or
/// refuse without touching the queue, or hand the message to `try_push`.
pub open spec fn admission_outcome<P: Payload + Clone, Q: Edge<P>>(
    d: AdmissionDecision,
    m: Q::Model,
    msg: Message<P>,
    policy: EdgePolicy,
) -> (Q::Model, EnqueueResult) {
    match d {
        AdmissionDecision::DropNewest => (m, EnqueueResult::DroppedNewest),
        AdmissionDecision::Reject => (m, EnqueueResult::Rejected),
        AdmissionDecision::Block => (m, EnqueueResult::Rejected),
        _ => Q::push_model(m, msg, policy),
    }
}

/// Enqueue a message after asking the policy for an admission decision at the
/// queue's current occupancy.
pub fn enqueue_with_admission<P: Payload + Clone, Q: Edge<P>>(
    queue: &mut Q,
    policy: &EdgePolicy,
    msg: Message<P>,
) -> (r: EnqueueResult)
    requires
        old(queue).well_formed(),
        Q::occupancy_defined(old(queue).model()),
    ensures
        final(queue).well_formed(),
        ({
            let occ = Q::occupancy_model(old(queue).model(), *policy);
            let d = decision_of(*policy, occ.items as int, occ.bytes as int, msg.header.qos);
            (final(queue).model(), r) == admission_outcome::<P, Q>(d, old(queue).model(), msg, *policy)
        }),
{
    let occ = queue.occupancy(policy);
    let qos = msg.header.qos;
    match policy.decide(occ.items, occ.bytes, qos) {
        AdmissionDecision::DropNewest => EnqueueResult::DroppedNewest,
        AdmissionDecision::Reject => EnqueueResult::Rejected,
        AdmissionDecision::Block => EnqueueResult::Rejected,
        _ => queue.try_push(msg, policy),
    }
}

/// A queue that holds nothing: pushes are refused, pops and peeks find nothing,
/// and its occupancy reads as saturated. Used for unconnected ports.
pub struct NoQueue<P: Payload>(pub core::marker::PhantomData<P>);

impl<P: Payload> NoQueue<P> {
    /// A new placeholder queue.
    pub fn new() -> (q: NoQueue<P>) {
        NoQueue(core::marker::PhantomData)
    }
}

impl<P: Payload + Clone> Edge<P> for NoQueue<P> {
    type Model = ();

    open spec fn model(&self) -> () { () }

    open spec fn well_formed(&self) -> bool { true }

    open spec fn push_model(m: (), item: Message<P>, policy: EdgePolicy) -> ((), EnqueueResult) {
        ((), EnqueueResult::Rejected)
    }

    open spec fn pop_model(m: ()) -> ((), Result<Message<P>, QueueError>) {
        ((), Err(QueueError::Empty))
    }

    open spec fn occupancy_defined(m: ()) -> bool { true }

    open spec fn occupancy_model(m: (), policy: EdgePolicy) -> EdgeOccupancy {
        EdgeOccupancy { items: 0, bytes: 0, watermark: WatermarkState::AtOrAboveHard }
    }

    open spec fn peek_model(m: (), index: int) -> Result<Message<P>, QueueError> {
        Err(QueueError::Empty)
    }

    open spec fn batch_model(m: (), policy: BatchingPolicy) -> ((), Result<Seq<Message<P>>, QueueError>) {
        ((), Err(QueueError::Empty))
    }

    fn try_push(&mut self, item: Message<P>, policy: &EdgePolicy) -> (r: EnqueueResult) {
        EnqueueResult::Rejected
    }

    fn try_pop(&mut self) -> (r: Result<Message<P>, QueueError>) {
        Err(QueueError::Empty)
    }

    fn occupancy(&self, policy: &EdgePolicy) -> (o: EdgeOccupancy) {
        EdgeOccupancy { items: 0, bytes: 0, watermark: WatermarkState::AtOrAboveHard }
    }

    fn try_peek(&self) -> (r: Result<PeekResponse<'_, Message<P>>, QueueError>) {
        Err(QueueError::Empty)
    }

    fn try_peek_at(&self, index: usize) -> (r: Result<PeekResponse<'_, Message<P>>, QueueError>) {
        Err(QueueError::Empty)
    }

    fn try_pop_batch(&mut self, policy: &BatchingPolicy) -> (r: Result<BatchView<'_, P>, QueueError>) {
        Err(QueueError::Empty)
    }
}

} // verus!
