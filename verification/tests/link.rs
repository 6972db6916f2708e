use limen::edge::link::{ConcurrentEdgeLink, EdgeDescriptor, EdgeLink};
use limen::edge::spsc_vecdeque::HeapRing;
use limen::edge::{Edge, EnqueueResult};
use limen::message::{Message, MessageHeader};
use limen::policy::{AdmissionPolicy, EdgePolicy, OverBudgetAction, QueueCaps};
use limen::types::{EdgeIndex, NodeIndex, PortId, PortIndex, Ticks};

fn policy() -> EdgePolicy {
    EdgePolicy::new(
        QueueCaps::new(8, 6, None, None),
        AdmissionPolicy::DropNewest,
        OverBudgetAction::Drop,
    )
}

type Q = HeapRing<Message<u32>>;

fn make_link() -> EdgeLink<Q, u32> {
    let queue: Q = HeapRing::with_capacity(16);
    let id = EdgeIndex::new(0);
    let upstream_port = PortId::new(NodeIndex::new(0), PortIndex::new(0));
    let downstream_port = PortId::new(NodeIndex::new(1), PortIndex::new(0));
    EdgeLink::new(queue, id, upstream_port, downstream_port, policy(), Some("edge:hi"))
}

fn make_concurrent_link() -> ConcurrentEdgeLink<Q, u32> {
    let queue: Q = HeapRing::with_capacity(16);
    let id = EdgeIndex::new(0);
    let upstream = PortId::new(NodeIndex::new(0), PortIndex::new(0));
    let downstream = PortId::new(NodeIndex::new(1), PortIndex::new(0));
    ConcurrentEdgeLink::new(queue, id, upstream, downstream, policy(), Some("edge:concurrent"))
}

#[test]
fn edge_link_metadata_accessors_and_descriptor() {
    let link = make_link();

    assert_eq!(link.id(), &EdgeIndex::new(0));
    assert_eq!(link.upstream_port(), &PortId::new(NodeIndex::new(0), PortIndex::new(0)));
    assert_eq!(link.downstream_port(), &PortId::new(NodeIndex::new(1), PortIndex::new(0)));
    assert_eq!(link.policy(), &policy());
    assert_eq!(link.name(), Some("edge:hi"));

    let d = link.descriptor();
    assert_eq!(d.id(), &EdgeIndex::new(0));
    assert_eq!(d.upstream(), &PortId::new(NodeIndex::new(0), PortIndex::new(0)));
    assert_eq!(d.downstream(), &PortId::new(NodeIndex::new(1), PortIndex::new(0)));
    assert_eq!(d.name(), Some("edge:hi"));
}

#[test]
fn edge_link_forwards_to_inner_queue_smoke() {
    let mut link = make_link();

    let mut header = MessageHeader::empty();
    header.set_creation_tick(Ticks::new(123));
    let msg = Message::new(header, 0u32);

    assert_eq!(link.try_push(msg, &policy()), EnqueueResult::Enqueued);
    let popped = link.try_pop().expect("pop");
    assert_eq!((*popped.header().creation_tick()).as_u64(), &123u64);
}

#[test]
fn concurrent_edge_link_metadata_and_descriptor() {
    let link = make_concurrent_link();

    assert_eq!(link.policy(), &policy());

    let d = link.descriptor();
    assert_eq!(d.id(), &EdgeIndex::new(0));
    assert_eq!(d.upstream(), &PortId::new(NodeIndex::new(0), PortIndex::new(0)));
    assert_eq!(d.downstream(), &PortId::new(NodeIndex::new(1), PortIndex::new(0)));
    assert_eq!(d.name(), Some("edge:concurrent"));
}

#[test]
fn concurrent_edge_link_arc_shares_underlying_queue() {
    let link = make_concurrent_link();
    let arc_a = link.arc();
    let arc_b = link.arc();

    {
        let mut q = arc_a.lock().expect("lock a");
        let mut header = MessageHeader::empty();
        header.set_creation_tick(Ticks::new(55));
        let msg = Message::new(header, 0u32);

        let res = q.try_push(msg, &policy());
        assert_eq!(res, EnqueueResult::Enqueued);
    }

    {
        let mut q = arc_b.lock().expect("lock b");
        let popped = q.try_pop().expect("pop");
        assert_eq!((*popped.header().creation_tick()).as_u64(), &55u64);
    }
}

#[test]
fn descriptors_compare_by_their_parts() {
    let up = PortId::new(NodeIndex::new(0), PortIndex::new(0));
    let down = PortId::new(NodeIndex::new(1), PortIndex::new(0));
    let a = EdgeDescriptor::new(EdgeIndex::new(1), up, down, Some("e0"));
    let owned = String::from("e0");
    let leaked: &'static str = Box::leak(owned.into_boxed_str());
    let b = EdgeDescriptor::new(EdgeIndex::new(1), up, down, Some(leaked));
    assert!(a == b);
    assert!(a != EdgeDescriptor::new(EdgeIndex::new(1), up, down, Some("e1")));
    assert!(a != EdgeDescriptor::new(EdgeIndex::new(1), up, down, None));
    assert!(a != EdgeDescriptor::new(EdgeIndex::new(2), up, down, Some("e0")));
    assert!(EdgeDescriptor::new(EdgeIndex::new(1), up, down, None) == EdgeDescriptor::new(EdgeIndex::new(1), up, down, None));
}
