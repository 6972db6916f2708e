//! A shareable handle to a queue behind a mutex, and the producer/consumer
//! endpoints that restrict an edge to one side.

use std::sync::{Arc, Mutex};
use vstd::prelude::*;
use crate::batch::BatchView;
use crate::edge::{Edge, EdgeOccupancy, EnqueueResult, PeekResponse};
use crate::errors::QueueError;
use crate::message::{Message, Payload};
use crate::policy::{BatchingPolicy, EdgePolicy};

verus! {

#[verifier::external_type_specification]
#[verifier::external_body]
#[verifier::reject_recursive_types(T)]
pub struct ExMutex<T: ?Sized>(Mutex<T>);

/// `std::sync::Mutex::new`: wraps the value in a fresh, unlocked mutex. Nothing
/// is stated of the result, whose contents Verus cannot see.
#[verifier::external_body]
pub(crate) fn mutex_new<T>(value: T) -> Mutex<T> {
    Mutex::new(value)
}

/// `Arc::clone`: a new handle to the same allocation, so the result equals the
/// given handle as a value.
#[verifier::external_body]
pub(crate) fn arc_share<T>(a: &Arc<T>) -> (r: Arc<T>)
    ensures
        r == *a,
{
    Arc::clone(a)
}

/// A cloneable, thread-safe handle to a queue behind `Arc<Mutex<_>>`.
#[verifier::reject_recursive_types(Q)]
pub struct ConcurrentQueue<Q> {
    inner: Arc<Mutex<Q>>,
}

impl<Q> ConcurrentQueue<Q> {
    /// The shared mutex.
    pub closed spec fn shared(&self) -> Arc<Mutex<Q>> {
        self.inner
    }

    /// Place a queue behind a new mutex.
    pub fn new(inner: Q) -> (q: Self) {
        ConcurrentQueue { inner: Arc::new(mutex_new(inner)) }
    }

    /// Wrap an existing shared mutex.
    pub fn from_arc(inner: Arc<Mutex<Q>>) -> (q: Self)
        ensures
            q.shared() == inner,
    {
        ConcurrentQueue { inner }
    }

    /// Another handle to the shared mutex.
    pub fn arc(&self) -> (a: Arc<Mutex<Q>>)
        ensures
            a == self.shared(),
    {
        arc_share(&self.inner)
    }
}

impl<Q> Clone for ConcurrentQueue<Q> {
    fn clone(&self) -> (c: Self)
        ensures
            c.shared() == self.shared(),
    {
        ConcurrentQueue { inner: arc_share(&self.inner) }
    }
}

/// Producer side of an edge: pushes and occupancy go through, reads are refused.
pub struct ProducerEndpoint<P, QWrap> {
    q: QWrap,
    _p: core::marker::PhantomData<P>,
}

impl<P, QWrap: Clone> Clone for ProducerEndpoint<P, QWrap> {
    fn clone(&self) -> (c: Self)
        ensures
            cloned(self.inner(), c.inner()),
    {
        ProducerEndpoint { q: self.q.clone(), _p: core::marker::PhantomData }
    }
}

impl<P, QWrap> ProducerEndpoint<P, QWrap> {
    /// The wrapped edge.
    pub closed spec fn inner(&self) -> QWrap {
        self.q
    }

    /// Wrap an edge.
    pub fn new(q: QWrap) -> (e: Self)
        ensures
            e.inner() == q,
    {
        ProducerEndpoint { q, _p: core::marker::PhantomData }
    }

    /// The wrapped edge.
    pub fn into_inner(self) -> (q: QWrap)
        ensures
            q == self.inner(),
    {
        self.q
    }
}

impl<P: Payload + Clone, QWrap: Edge<P>> Edge<P> for ProducerEndpoint<P, QWrap> {
    type Model = QWrap::Model;

    open spec fn model(&self) -> QWrap::Model {
        self.inner().model()
    }

    open spec fn well_formed(&self) -> bool {
        self.inner().well_formed()
    }

    open spec fn push_model(m: QWrap::Model, item: Message<P>, policy: EdgePolicy) -> (QWrap::Model, EnqueueResult) {
        QWrap::push_model(m, item, policy)
    }

    open spec fn pop_model(m: QWrap::Model) -> (QWrap::Model, Result<Message<P>, QueueError>) {
        (m, Err(QueueError::Empty))
    }

    open spec fn occupancy_defined(m: QWrap::Model) -> bool {
        QWrap::occupancy_defined(m)
    }

    open spec fn occupancy_model(m: QWrap::Model, policy: EdgePolicy) -> EdgeOccupancy {
        QWrap::occupancy_model(m, policy)
    }

    open spec fn peek_model(m: QWrap::Model, index: int) -> Result<Message<P>, QueueError> {
        Err(QueueError::Unsupported)
    }

    open spec fn batch_model(m: QWrap::Model, policy: BatchingPolicy) -> (QWrap::Model, Result<Seq<Message<P>>, QueueError>) {
        (m, Err(QueueError::Empty))
    }

    fn try_push(&mut self, item: Message<P>, policy: &EdgePolicy) -> (r: EnqueueResult) {
        self.q.try_push(item, policy)
    }

    fn try_pop(&mut self) -> (r: Result<Message<P>, QueueError>) {
        Err(QueueError::Empty)
    }

    fn occupancy(&self, policy: &EdgePolicy) -> (o: EdgeOccupancy) {
        self.q.occupancy(policy)
    }

    fn try_peek(&self) -> (r: Result<PeekResponse<'_, Message<P>>, QueueError>) {
        Err(QueueError::Unsupported)
    }

    fn try_peek_at(&self, index: usize) -> (r: Result<PeekResponse<'_, Message<P>>, QueueError>) {
        Err(QueueError::Unsupported)
    }

    fn try_pop_batch(&mut self, policy: &BatchingPolicy) -> (r: Result<BatchView<'_, P>, QueueError>) {
        Err(QueueError::Empty)
    }
}

/// Consumer side of an edge: pops, peeks and occupancy go through, pushes are refused.
pub struct ConsumerEndpoint<P, QWrap> {
    q: QWrap,
    _p: core::marker::PhantomData<P>,
}

impl<P, QWrap: Clone> Clone for ConsumerEndpoint<P, QWrap> {
    fn clone(&self) -> (c: Self)
        ensures
            cloned(self.inner(), c.inner()),
    {
        ConsumerEndpoint { q: self.q.clone(), _p: core::marker::PhantomData }
    }
}

impl<P, QWrap> ConsumerEndpoint<P, QWrap> {
    /// The wrapped edge.
    pub closed spec fn inner(&self) -> QWrap {
        self.q
    }

    /// Wrap an edge.
    pub fn new(q: QWrap) -> (e: Self)
        ensures
            e.inner() == q,
    {
        ConsumerEndpoint { q, _p: core::marker::PhantomData }
    }

    /// The wrapped edge.
    pub fn into_inner(self) -> (q: QWrap)
        ensures
            q == self.inner(),
    {
        self.q
    }
}

impl<P: Payload + Clone, QWrap: Edge<P>> Edge<P> for ConsumerEndpoint<P, QWrap> {
    type Model = QWrap::Model;

    open spec fn model(&self) -> QWrap::Model {
        self.inner().model()
    }

    open spec fn well_formed(&self) -> bool {
        self.inner().well_formed()
    }

    open spec fn push_model(m: QWrap::Model, item: Message<P>, policy: EdgePolicy) -> (QWrap::Model, EnqueueResult) {
        (m, EnqueueResult::Rejected)
    }

    open spec fn pop_model(m: QWrap::Model) -> (QWrap::Model, Result<Message<P>, QueueError>) {
        QWrap::pop_model(m)
    }

    open spec fn occupancy_defined(m: QWrap::Model) -> bool {
        QWrap::occupancy_defined(m)
    }

    open spec fn occupancy_model(m: QWrap::Model, policy: EdgePolicy) -> EdgeOccupancy {
        QWrap::occupancy_model(m, policy)
    }

    open spec fn peek_model(m: QWrap::Model, index: int) -> Result<Message<P>, QueueError> {
        QWrap::peek_model(m, index)
    }

    open spec fn batch_model(m: QWrap::Model, policy: BatchingPolicy) -> (QWrap::Model, Result<Seq<Message<P>>, QueueError>) {
        QWrap::batch_model(m, policy)
    }

    fn try_push(&mut self, item: Message<P>, policy: &EdgePolicy) -> (r: EnqueueResult) {
        EnqueueResult::Rejected
    }

    fn try_pop(&mut self) -> (r: Result<Message<P>, QueueError>) {
        self.q.try_pop()
    }

    fn occupancy(&self, policy: &EdgePolicy) -> (o: EdgeOccupancy) {
        self.q.occupancy(policy)
    }

    fn try_peek(&self) -> (r: Result<PeekResponse<'_, Message<P>>, QueueError>) {
        self.q.try_peek()
    }

    fn try_peek_at(&self, index: usize) -> (r: Result<PeekResponse<'_, Message<P>>, QueueError>) {
        self.q.try_peek_at(index)
    }

    fn try_pop_batch(&mut self, policy: &BatchingPolicy) -> (r: Result<BatchView<'_, P>, QueueError>) {
        self.q.try_pop_batch(policy)
    }
}

} // verus!
