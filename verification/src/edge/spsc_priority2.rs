//! Two-lane priority edge: latency-critical messages go to the high lane, all
//! others to the low lane, and reads prefer the high lane.

use vstd::prelude::*;
use crate::batch::BatchView;
use crate::edge::{Edge, EdgeOccupancy, EnqueueResult, PeekResponse};
use crate::errors::QueueError;
use crate::message::{Message, Payload};
use crate::policy::{watermark_of, BatchingPolicy, EdgePolicy};
use crate::types::QoSClass;

verus! {

/// Two-lane priority queue over a high and a low lane.
pub struct Priority2<QHi, QLo, P> {
    hi: QHi,
    lo: QLo,
    _p: core::marker::PhantomData<P>,
}

impl<QHi: Edge<P>, QLo: Edge<P>, P: Payload + Clone> Priority2<QHi, QLo, P> {
    /// The high lane.
    pub closed spec fn hi_lane(&self) -> QHi {
        self.hi
    }

    /// The low lane.
    pub closed spec fn lo_lane(&self) -> QLo {
        self.lo
    }

    /// Build a two-lane queue from its lanes.
    pub fn new(hi: QHi, lo: QLo) -> (q: Self)
        ensures
            q.hi_lane() == hi,
            q.lo_lane() == lo,
    {
        Priority2 { hi, lo, _p: core::marker::PhantomData }
    }
}

impl<QHi: Edge<P>, QLo: Edge<P>, P: Payload + Clone> Edge<P> for Priority2<QHi, QLo, P> {
    type Model = (QHi::Model, QLo::Model);

    open spec fn model(&self) -> (QHi::Model, QLo::Model) {
        (self.hi_lane().model(), self.lo_lane().model())
    }

    open spec fn well_formed(&self) -> bool {
        self.hi_lane().well_formed() && self.lo_lane().well_formed()
    }

    open spec fn push_model(m: (QHi::Model, QLo::Model), item: Message<P>, policy: EdgePolicy) -> ((QHi::Model, QLo::Model), EnqueueResult) {
        if item.header.qos == QoSClass::LatencyCritical {
            let (h, r) = QHi::push_model(m.0, item, policy);
            ((h, m.1), r)
        } else {
            let (l, r) = QLo::push_model(m.1, item, policy);
            ((m.0, l), r)
        }
    }

    open spec fn pop_model(m: (QHi::Model, QLo::Model)) -> ((QHi::Model, QLo::Model), Result<Message<P>, QueueError>) {
        let (h, r) = QHi::pop_model(m.0);
        match r {
            Err(QueueError::Empty) => {
                let (l, r2) = QLo::pop_model(m.1);
                ((h, l), r2)
            },
            _ => ((h, m.1), r),
        }
    }

    open spec fn occupancy_defined(m: (QHi::Model, QLo::Model)) -> bool {
        &&& QHi::occupancy_defined(m.0)
        &&& QLo::occupancy_defined(m.1)
        &&& forall|p: EdgePolicy|
            #![trigger QHi::occupancy_model(m.0, p)]
            QHi::occupancy_model(m.0, p).items + QLo::occupancy_model(m.1, p).items <= usize::MAX
                && QHi::occupancy_model(m.0, p).bytes + QLo::occupancy_model(m.1, p).bytes <= usize::MAX
    }

    open spec fn occupancy_model(m: (QHi::Model, QLo::Model), policy: EdgePolicy) -> EdgeOccupancy {
        let h = QHi::occupancy_model(m.0, policy);
        let l = QLo::occupancy_model(m.1, policy);
        let items = h.items + l.items;
        let bytes = h.bytes + l.bytes;
        EdgeOccupancy { items: items as usize, bytes: bytes as usize, watermark: watermark_of(policy.caps, items, bytes) }
    }

    open spec fn peek_model(m: (QHi::Model, QLo::Model), index: int) -> Result<Message<P>, QueueError> {
        match QHi::peek_model(m.0, index) {
            Err(QueueError::Empty) => QLo::peek_model(m.1, index),
            r => r,
        }
    }

    open spec fn batch_model(m: (QHi::Model, QLo::Model), policy: BatchingPolicy) -> ((QHi::Model, QLo::Model), Result<Seq<Message<P>>, QueueError>) {
        let (h, r) = QHi::batch_model(m.0, policy);
        match r {
            Err(QueueError::Empty) => {
                let (l, r2) = QLo::batch_model(m.1, policy);
                ((h, l), r2)
            },
            _ => ((h, m.1), r),
        }
    }

    fn try_push(&mut self, item: Message<P>, policy: &EdgePolicy) -> (r: EnqueueResult) {
        match item.header.qos {
            QoSClass::LatencyCritical => self.hi.try_push(item, policy),
            _ => self.lo.try_push(item, policy),
        }
    }

    fn try_pop(&mut self) -> (r: Result<Message<P>, QueueError>) {
        match self.hi.try_pop() {
            Ok(it) => Ok(it),
            Err(QueueError::Empty) => self.lo.try_pop(),
            Err(e) => Err(e),
        }
    }

    fn occupancy(&self, policy: &EdgePolicy) -> (o: EdgeOccupancy) {
        let hi = self.hi.occupancy(policy);
        let lo = self.lo.occupancy(policy);
        let items = hi.items + lo.items;
        let bytes = hi.bytes + lo.bytes;
        let watermark = policy.watermark(items, bytes);
        EdgeOccupancy { items, bytes, watermark }
    }

    fn try_peek(&self) -> (r: Result<PeekResponse<'_, Message<P>>, QueueError>) {
        match self.hi.try_peek() {
            Ok(pr) => Ok(pr),
            Err(QueueError::Empty) => self.lo.try_peek(),
            Err(e) => Err(e),
        }
    }

    fn try_peek_at(&self, index: usize) -> (r: Result<PeekResponse<'_, Message<P>>, QueueError>) {
        match self.hi.try_peek_at(index) {
            Ok(pr) => Ok(pr),
            Err(QueueError::Empty) => self.lo.try_peek_at(index),
            Err(e) => Err(e),
        }
    }

    fn try_pop_batch(&mut self, policy: &BatchingPolicy) -> (r: Result<BatchView<'_, P>, QueueError>) {
        match self.hi.try_pop_batch(policy) {
            Ok(batch) => Ok(batch),
            Err(QueueError::Empty) => self.lo.try_pop_batch(policy),
            Err(e) => Err(e),
        }
    }
}

} // verus!
