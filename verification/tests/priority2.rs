use limen::edge::spsc_priority2::Priority2;
use limen::edge::spsc_vecdeque::HeapRing;
use limen::edge::{Edge, EnqueueResult};
use limen::message::{Message, MessageHeader};
use limen::policy::{AdmissionPolicy, BatchingPolicy, EdgePolicy, OverBudgetAction, QueueCaps};
use limen::types::{QoSClass, Ticks};

fn policy() -> EdgePolicy {
    EdgePolicy::new(
        QueueCaps::new(8, 6, None, None),
        AdmissionPolicy::DropNewest,
        OverBudgetAction::Drop,
    )
}

fn msg_with_qos(tick: u64, qos: QoSClass) -> Message<u32> {
    let mut header = MessageHeader::empty();
    header.set_creation_tick(Ticks::new(tick));
    header.set_qos(qos);
    Message::new(header, 0u32)
}

type Lane = HeapRing<Message<u32>>;

fn lanes(cap: usize) -> Priority2<Lane, Lane, u32> {
    Priority2::new(HeapRing::with_capacity(cap), HeapRing::with_capacity(cap))
}

#[test]
fn routes_latency_critical_to_hi_and_others_to_lo() {
    let mut q = lanes(16);
    let p = policy();

    assert_eq!(q.try_push(msg_with_qos(1, QoSClass::LatencyCritical), &p), EnqueueResult::Enqueued);
    assert_eq!(q.try_push(msg_with_qos(2, QoSClass::BestEffort), &p), EnqueueResult::Enqueued);

    let a = q.try_pop().expect("pop hi");
    let b = q.try_pop().expect("pop lo");
    assert_eq!((*a.header().creation_tick()).as_u64(), &1u64);
    assert_eq!((*b.header().creation_tick()).as_u64(), &2u64);
}

#[test]
fn peek_prefers_hi_when_both_non_empty() {
    let mut q = lanes(16);
    let p = policy();

    assert_eq!(q.try_push(msg_with_qos(10, QoSClass::BestEffort), &p), EnqueueResult::Enqueued);
    assert_eq!(q.try_push(msg_with_qos(20, QoSClass::LatencyCritical), &p), EnqueueResult::Enqueued);

    let peek = q.try_peek().expect("peek");
    assert_eq!((*peek.as_ref().header().creation_tick()).as_u64(), &20u64);

    let popped = q.try_pop().expect("pop");
    assert_eq!((*popped.header().creation_tick()).as_u64(), &20u64);
}

#[test]
fn pop_batch_prefers_hi_when_non_empty() {
    let mut q = lanes(16);
    let p = policy();

    for t in 1..=3 {
        assert_eq!(q.try_push(msg_with_qos(t, QoSClass::BestEffort), &p), EnqueueResult::Enqueued);
    }
    for t in 100..=101 {
        assert_eq!(q.try_push(msg_with_qos(t, QoSClass::LatencyCritical), &p), EnqueueResult::Enqueued);
    }

    let batch_policy = BatchingPolicy::fixed(4);

    let batch = q.try_pop_batch(&batch_policy).expect("batch");
    let ticks: Vec<u64> = batch
        .as_batch()
        .iter()
        .map(|m| *(m.header().creation_tick()).as_u64())
        .collect();
    assert_eq!(ticks.as_slice(), &[100, 101]);

    let a = q.try_pop().expect("lo-1");
    let b = q.try_pop().expect("lo-2");
    let c = q.try_pop().expect("lo-3");
    assert_eq!((*a.header().creation_tick()).as_u64(), &1u64);
    assert_eq!((*b.header().creation_tick()).as_u64(), &2u64);
    assert_eq!((*c.header().creation_tick()).as_u64(), &3u64);
}

#[test]
fn occupancy_is_sum_of_lanes() {
    let mut q = lanes(16);
    let p = policy();

    assert_eq!(q.try_push(msg_with_qos(1, QoSClass::LatencyCritical), &p), EnqueueResult::Enqueued);
    assert_eq!(q.try_push(msg_with_qos(2, QoSClass::BestEffort), &p), EnqueueResult::Enqueued);

    let occ = q.occupancy(&p);
    assert_eq!(*occ.items(), 2usize);
    assert!(*occ.bytes() > 0usize);
}

#[test]
fn lane_specific_admission_interactions_smoke_test() {
    let mut q = lanes(2);

    let small_caps_policy = EdgePolicy::new(
        QueueCaps::new(2, 1, None, None),
        AdmissionPolicy::DropOldest,
        OverBudgetAction::Drop,
    );

    assert_eq!(
        q.try_push(msg_with_qos(1, QoSClass::LatencyCritical), &small_caps_policy),
        EnqueueResult::Enqueued
    );
    assert_eq!(
        q.try_push(msg_with_qos(2, QoSClass::LatencyCritical), &small_caps_policy),
        EnqueueResult::Enqueued
    );

    let popped = q.try_pop().expect("pop");
    assert_eq!((*popped.header().creation_tick()).as_u64(), &2u64);
}
