//! Edge links (a queue plus its routing and policy metadata) and edge descriptors.

use std::sync::{Arc, Mutex};
use vstd::prelude::*;
use vstd::std_specs::cmp::PartialEqSpecImpl;
use vstd::string::StrSliceExecFns;
use crate::batch::BatchView;
use crate::edge::spsc_concurrent::{arc_share, mutex_new};
use crate::edge::{Edge, EdgeOccupancy, EnqueueResult, PeekResponse};
use crate::errors::QueueError;
use crate::message::{Message, Payload};
use crate::policy::{BatchingPolicy, EdgePolicy};
use crate::types::{EdgeIndex, PortId};

verus! {

/// An edge of the graph: one output port coupled to one input port.
#[derive(Debug, Clone, Copy, Eq)]
pub struct EdgeDescriptor {
    id: EdgeIndex,
    upstream: PortId,
    downstream: PortId,
    name: Option<&'static str>,
}

impl EdgeDescriptor {
    /// Identifier of the edge.
    pub closed spec fn spec_id(&self) -> EdgeIndex {
        self.id
    }

    /// Upstream node and port.
    pub closed spec fn spec_upstream(&self) -> PortId {
        self.upstream
    }

    /// Downstream node and port.
    pub closed spec fn spec_downstream(&self) -> PortId {
        self.downstream
    }

    /// Optional static name.
    pub closed spec fn spec_name(&self) -> Option<&'static str> {
        self.name
    }

    /// Construct a descriptor.
    pub fn new(id: EdgeIndex, upstream: PortId, downstream: PortId, name: Option<&'static str>) -> (d: EdgeDescriptor)
        ensures
            d.spec_id() == id,
            d.spec_upstream() == upstream,
            d.spec_downstream() == downstream,
            d.spec_name() == name,
    {
        EdgeDescriptor { id, upstream, downstream, name }
    }

    /// Identifier of the edge.
    pub fn id(&self) -> (i: &EdgeIndex)
        ensures
            *i == self.spec_id(),
    {
        &self.id
    }

    /// Upstream node and port.
    pub fn upstream(&self) -> (p: &PortId)
        ensures
            *p == self.spec_upstream(),
    {
        &self.upstream
    }

    /// Downstream node and port.
    pub fn downstream(&self) -> (p: &PortId)
        ensures
            *p == self.spec_downstream(),
    {
        &self.downstream
    }

    /// Optional static name.
    pub fn name(&self) -> (n: Option<&'static str>)
        ensures
            n == self.spec_name(),
    {
        self.name
    }
}

/// Whether two optional names are both absent or both present with the same text.
pub open spec fn same_name(a: Option<&str>, b: Option<&str>) -> bool {
    match (a, b) {
        (None, None) => true,
        (Some(x), Some(y)) => x@ == y@,
        _ => false,
    }
}

/// Whether two strings hold the same characters.
fn same_text(a: &str, b: &str) -> (r: bool)
    ensures
        r == (a@ == b@),
{
    let n = a.unicode_len();
    if n != b.unicode_len() {
        return false;
    }
    let mut i: usize = 0;
    while i < n
        invariant
            n == a@.len() == b@.len(),
            0 <= i <= n,
            forall|j: int| 0 <= j < i ==> a@[j] == b@[j],
        decreases n - i,
    {
        if a.get_char(i) != b.get_char(i) {
            return false;
        }
        i = i + 1;
    }
    assert(a@ =~= b@);
    true
}

impl PartialEq for EdgeDescriptor {
    fn eq(&self, other: &Self) -> (r: bool) {
        let names = match (self.name, other.name) {
            (None, None) => true,
            (Some(x), Some(y)) => same_text(x, y),
            _ => false,
        };
        self.id == other.id && self.upstream == other.upstream && self.downstream == other.downstream && names
    }
}

impl PartialEqSpecImpl for EdgeDescriptor {
    open spec fn obeys_eq_spec() -> bool {
        true
    }

    open spec fn eq_spec(&self, other: &Self) -> bool {
        &&& self.spec_id() == other.spec_id()
        &&& self.spec_upstream() == other.spec_upstream()
        &&& self.spec_downstream() == other.spec_downstream()
        &&& same_name(self.spec_name(), other.spec_name())
    }
}

/// A queue together with the edge's id, ports, policy and name.
#[derive(Debug)]
pub struct EdgeLink<Q, P> {
    queue: Q,
    id: EdgeIndex,
    upstream_port: PortId,
    downstream_port: PortId,
    policy: EdgePolicy,
    name: Option<&'static str>,
    _payload_marker: core::marker::PhantomData<P>,
}

impl<Q, P> EdgeLink<Q, P> {
    /// The queue.
    pub closed spec fn spec_queue(&self) -> Q {
        self.queue
    }

    /// The descriptor this link reports.
    pub closed spec fn spec_descriptor(&self) -> EdgeDescriptor {
        EdgeDescriptor { id: self.id, upstream: self.upstream_port, downstream: self.downstream_port, name: self.name }
    }

    /// The edge policy.
    pub closed spec fn spec_policy(&self) -> EdgePolicy {
        self.policy
    }

    /// Construct a link around a queue.
    pub fn new(
        queue: Q,
        id: EdgeIndex,
        upstream_port: PortId,
        downstream_port: PortId,
        policy: EdgePolicy,
        name: Option<&'static str>,
    ) -> (l: Self)
        ensures
            l.spec_queue() == queue,
            l.spec_policy() == policy,
            l.spec_descriptor().spec_id() == id,
            l.spec_descriptor().spec_upstream() == upstream_port,
            l.spec_descriptor().spec_downstream() == downstream_port,
            l.spec_descriptor().spec_name() == name,
    {
        EdgeLink {
            queue,
            id,
            upstream_port,
            downstream_port,
            policy,
            name,
            _payload_marker: core::marker::PhantomData,
        }
    }

    /// The queue.
    pub fn queue(&self) -> (q: &Q)
        ensures
            *q == self.spec_queue(),
    {
        &self.queue
    }

    /// Mutable access to the queue; the metadata stays as it is.
    pub fn queue_mut(&mut self) -> (q: &mut Q)
        ensures
            *q == old(self).spec_queue(),
            final(self).spec_queue() == *final(q),
            final(self).spec_descriptor() == old(self).spec_descriptor(),
            final(self).spec_policy() == old(self).spec_policy(),
    {
        &mut self.queue
    }

    /// Identifier of the edge.
    pub fn id(&self) -> (i: &EdgeIndex)
        ensures
            *i == self.spec_descriptor().spec_id(),
    {
        &self.id
    }

    /// Upstream output port.
    pub fn upstream_port(&self) -> (p: &PortId)
        ensures
            *p == self.spec_descriptor().spec_upstream(),
    {
        &self.upstream_port
    }

    /// Downstream input port.
    pub fn downstream_port(&self) -> (p: &PortId)
        ensures
            *p == self.spec_descriptor().spec_downstream(),
    {
        &self.downstream_port
    }

    /// The edge policy.
    pub fn policy(&self) -> (p: &EdgePolicy)
        ensures
            *p == self.spec_policy(),
    {
        &self.policy
    }

    /// Optional static name.
    pub fn name(&self) -> (n: Option<&'static str>)
        ensures
            n == self.spec_descriptor().spec_name(),
    {
        self.name
    }

    /// The descriptor of this edge.
    pub fn descriptor(&self) -> (d: EdgeDescriptor)
        ensures
            d == self.spec_descriptor(),
    {
        EdgeDescriptor {
            id: self.id,
            upstream: self.upstream_port,
            downstream: self.downstream_port,
            name: self.name,
        }
    }
}

impl<Q: Edge<P>, P: Payload + Clone> Edge<P> for EdgeLink<Q, P> {
    type Model = Q::Model;

    open spec fn model(&self) -> Q::Model {
        self.spec_queue().model()
    }

    open spec fn well_formed(&self) -> bool {
        self.spec_queue().well_formed()
    }

    open spec fn push_model(m: Q::Model, item: Message<P>, policy: EdgePolicy) -> (Q::Model, EnqueueResult) {
        Q::push_model(m, item, policy)
    }

    open spec fn pop_model(m: Q::Model) -> (Q::Model, Result<Message<P>, QueueError>) {
        Q::pop_model(m)
    }

    open spec fn occupancy_defined(m: Q::Model) -> bool {
        Q::occupancy_defined(m)
    }

    open spec fn occupancy_model(m: Q::Model, policy: EdgePolicy) -> EdgeOccupancy {
        Q::occupancy_model(m, policy)
    }

    open spec fn peek_model(m: Q::Model, index: int) -> Result<Message<P>, QueueError> {
        Q::peek_model(m, index)
    }

    open spec fn batch_model(m: Q::Model, policy: BatchingPolicy) -> (Q::Model, Result<Seq<Message<P>>, QueueError>) {
        Q::batch_model(m, policy)
    }

    fn try_push(&mut self, item: Message<P>, policy: &EdgePolicy) -> (r: EnqueueResult) {
        self.queue.try_push(item, policy)
    }

    fn try_pop(&mut self) -> (r: Result<Message<P>, QueueError>) {
        self.queue.try_pop()
    }

    fn occupancy(&self, policy: &EdgePolicy) -> (o: EdgeOccupancy) {
        self.queue.occupancy(policy)
    }

    fn try_peek(&self) -> (r: Result<PeekResponse<'_, Message<P>>, QueueError>) {
        self.queue.try_peek()
    }

    fn try_peek_at(&self, index: usize) -> (r: Result<PeekResponse<'_, Message<P>>, QueueError>) {
        self.queue.try_peek_at(index)
    }

    fn try_pop_batch(&mut self, policy: &BatchingPolicy) -> (r: Result<BatchView<'_, P>, QueueError>) {
        self.queue.try_pop_batch(policy)
    }
}


/// Owning, thread-safe sibling of `EdgeLink`: the queue sits behind an
/// `Arc<Mutex<_>>` so that concurrent runtimes can hand out shared handles.
#[verifier::reject_recursive_types(Q)]
pub struct ConcurrentEdgeLink<Q, P> {
    buf: Arc<Mutex<Q>>,
    id: EdgeIndex,
    upstream: PortId,
    downstream: PortId,
    policy: EdgePolicy,
    name: Option<&'static str>,
    _marker: core::marker::PhantomData<P>,
}

impl<Q, P> ConcurrentEdgeLink<Q, P> {
    /// The shared mutex holding the queue.
    pub closed spec fn shared(&self) -> Arc<Mutex<Q>> {
        self.buf
    }

    /// The descriptor this link reports.
    pub closed spec fn spec_descriptor(&self) -> EdgeDescriptor {
        EdgeDescriptor { id: self.id, upstream: self.upstream, downstream: self.downstream, name: self.name }
    }

    /// The edge policy.
    pub closed spec fn spec_policy(&self) -> EdgePolicy {
        self.policy
    }

    /// Place the queue behind a new mutex and record the edge's metadata.
    pub fn new(
        queue: Q,
        id: EdgeIndex,
        upstream: PortId,
        downstream: PortId,
        policy: EdgePolicy,
        name: Option<&'static str>,
    ) -> (l: Self)
        ensures
            l.spec_policy() == policy,
            l.spec_descriptor().spec_id() == id,
            l.spec_descriptor().spec_upstream() == upstream,
            l.spec_descriptor().spec_downstream() == downstream,
            l.spec_descriptor().spec_name() == name,
    {
        ConcurrentEdgeLink {
            buf: Arc::new(mutex_new(queue)),
            id,
            upstream,
            downstream,
            policy,
            name,
            _marker: core::marker::PhantomData,
        }
    }

    /// The descriptor of this edge.
    pub fn descriptor(&self) -> (d: EdgeDescriptor)
        ensures
            d == self.spec_descriptor(),
    {
        EdgeDescriptor { id: self.id, upstream: self.upstream, downstream: self.downstream, name: self.name }
    }

    /// The edge policy.
    pub fn policy(&self) -> (p: &EdgePolicy)
        ensures
            *p == self.spec_policy(),
    {
        &self.policy
    }

    /// Another handle to the shared mutex.
    pub fn arc(&self) -> (a: Arc<Mutex<Q>>)
        ensures
            a == self.shared(),
    {
        arc_share(&self.buf)
    }
}

} // verus!
