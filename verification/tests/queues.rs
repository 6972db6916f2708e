use limen::edge::spsc_raw::SpscAtomicRing;
use limen::edge::spsc_ringbuf::{next_power_of_two, SpscRingbuf};
use limen::edge::spsc_vecdeque::HeapRing;
use limen::edge::spsc_concurrent::{ConsumerEndpoint, ProducerEndpoint};
use limen::edge::{enqueue_with_admission, Edge, EnqueueResult, NoQueue};
use limen::errors::QueueError;
use limen::message::{Message, MessageHeader};
use limen::policy::{
    AdmissionPolicy, BatchingPolicy, EdgePolicy, OverBudgetAction, QueueCaps, SlidingWindow, WatermarkState,
    WindowKind,
};
use limen::types::{QoSClass, Ticks};

fn msg(tick: u64) -> Message<u32> {
    let mut h = MessageHeader::empty();
    h.set_creation_tick(Ticks::new(tick));
    Message::new(h, tick as u32)
}

fn msg_qos(tick: u64, qos: QoSClass) -> Message<u32> {
    let mut h = MessageHeader::empty();
    h.set_creation_tick(Ticks::new(tick));
    h.set_qos(qos);
    Message::new(h, tick as u32)
}

fn loose() -> EdgePolicy {
    EdgePolicy::new(QueueCaps::new(100, 100, None, None), AdmissionPolicy::DropNewest, OverBudgetAction::Drop)
}

fn ticks_of(v: &[Message<u32>]) -> Vec<u64> {
    v.iter().map(|m| *m.header().creation_tick().as_u64()).collect()
}

fn batch_ticks<Q: Edge<u32>>(q: &mut Q, p: &BatchingPolicy) -> Result<Vec<u64>, QueueError> {
    match q.try_pop_batch(p) {
        Ok(b) => Ok(b.iter().map(|m| *m.header().creation_tick().as_u64()).collect()),
        Err(e) => Err(e),
    }
}

fn drain<Q: Edge<u32>>(q: &mut Q) -> Vec<u64> {
    let mut out = Vec::new();
    while let Ok(m) = q.try_pop() {
        out.push(*m.header().creation_tick().as_u64());
    }
    out
}

fn fill<Q: Edge<u32>>(q: &mut Q, ticks: &[u64]) {
    for t in ticks {
        assert_eq!(q.try_push(msg(*t), &loose()), EnqueueResult::Enqueued);
    }
}

#[test]
fn heap_ring_is_fifo_and_counts_bytes() {
    let mut q: HeapRing<Message<u32>> = HeapRing::with_capacity(4);
    fill(&mut q, &[1, 2, 3]);
    let occ = q.occupancy(&loose());
    assert_eq!(*occ.items(), 3);
    assert_eq!(*occ.bytes(), 12);
    assert_eq!(*occ.watermark(), WatermarkState::BelowSoft);
    assert_eq!(drain(&mut q), vec![1, 2, 3]);
    assert_eq!(*q.occupancy(&loose()).bytes(), 0);
    assert_eq!(q.try_pop().err(), Some(QueueError::Empty));
}

#[test]
fn heap_ring_rejects_when_full() {
    let mut q: HeapRing<Message<u32>> = HeapRing::with_capacity(2);
    fill(&mut q, &[1, 2]);
    assert_eq!(q.try_push(msg(3), &loose()), EnqueueResult::Rejected);
    assert_eq!(drain(&mut q), vec![1, 2]);
}

#[test]
fn heap_ring_drop_oldest_between_soft_and_hard() {
    let p = EdgePolicy::new(QueueCaps::new(10, 2, None, None), AdmissionPolicy::DropOldest, OverBudgetAction::Drop);
    let mut q: HeapRing<Message<u32>> = HeapRing::with_capacity(10);
    for t in 1..=4 {
        assert_eq!(q.try_push(msg(t), &p), EnqueueResult::Enqueued);
    }
    // The third and fourth pushes each evicted the oldest message.
    assert_eq!(drain(&mut q), vec![3, 4]);
}

#[test]
fn heap_ring_peek_and_peek_at() {
    let mut q: HeapRing<Message<u32>> = HeapRing::with_capacity(4);
    assert_eq!(q.try_peek().err(), Some(QueueError::Empty));
    fill(&mut q, &[7, 8]);
    assert_eq!(*q.try_peek().unwrap().header().creation_tick().as_u64(), 7);
    assert_eq!(*q.try_peek_at(1).unwrap().payload(), 8);
    assert_eq!(q.try_peek_at(2).err(), Some(QueueError::Empty));
    assert_eq!(drain(&mut q), vec![7, 8]);
}

#[test]
fn heap_ring_disjoint_batches() {
    let mut q: HeapRing<Message<u32>> = HeapRing::with_capacity(8);
    fill(&mut q, &[1, 2, 3, 4, 5]);
    assert_eq!(batch_ticks(&mut q, &BatchingPolicy::fixed(2)), Ok(vec![1, 2]));
    // No caps at all: one message per batch.
    let none = BatchingPolicy::new(None, None, WindowKind::Disjoint);
    assert_eq!(batch_ticks(&mut q, &none), Ok(vec![3]));
    assert_eq!(batch_ticks(&mut q, &BatchingPolicy::fixed(0)), Err(QueueError::Empty));
    assert_eq!(drain(&mut q), vec![4, 5]);
    assert_eq!(batch_ticks(&mut q, &BatchingPolicy::fixed(2)), Err(QueueError::Empty));
}

#[test]
fn heap_ring_batch_respects_max_delta() {
    let mut q: HeapRing<Message<u32>> = HeapRing::with_capacity(8);
    fill(&mut q, &[10, 12, 15, 16]);
    let p = BatchingPolicy::new(None, Some(Ticks::new(3)), WindowKind::Disjoint);
    assert_eq!(batch_ticks(&mut q, &p), Ok(vec![10, 12]));
    assert_eq!(batch_ticks(&mut q, &p), Ok(vec![15, 16]));
}

#[test]
fn heap_ring_sliding_window_presents_size_and_pops_stride() {
    let mut q: HeapRing<Message<u32>> = HeapRing::with_capacity(8);
    fill(&mut q, &[1, 2, 3, 4]);
    let p = BatchingPolicy::new(Some(8), None, WindowKind::Sliding(SlidingWindow::new(3, 1)));
    assert_eq!(batch_ticks(&mut q, &p), Ok(vec![1, 2, 3]));
    assert_eq!(batch_ticks(&mut q, &p), Ok(vec![2, 3, 4]));
    // A stride larger than the window: only the window is shown, the stride is popped.
    let wide = BatchingPolicy::new(Some(8), None, WindowKind::Sliding(SlidingWindow::new(1, 2)));
    assert_eq!(batch_ticks(&mut q, &wide), Ok(vec![3]));
    assert_eq!(drain(&mut q), Vec::<u64>::new());
}

#[test]
fn ringbuf_rounds_capacity_and_limits_items() {
    assert_eq!(next_power_of_two(0), 1);
    assert_eq!(next_power_of_two(1), 1);
    assert_eq!(next_power_of_two(5), 8);
    assert_eq!(next_power_of_two(8), 8);
    assert_eq!(next_power_of_two(9), 16);

    let mut q: SpscRingbuf<Message<u32>> = SpscRingbuf::with_capacity(3);
    fill(&mut q, &[1, 2, 3]);
    assert_eq!(q.try_push(msg(4), &loose()), EnqueueResult::Rejected);
    assert_eq!(*q.occupancy(&loose()).items(), 3);
    assert_eq!(drain(&mut q), vec![1, 2, 3]);
}

#[test]
fn ringbuf_sliding_window_presents_only_the_window() {
    let mut q: SpscRingbuf<Message<u32>> = SpscRingbuf::with_capacity(8);
    fill(&mut q, &[1, 2, 3, 4]);
    let wide = BatchingPolicy::new(Some(8), None, WindowKind::Sliding(SlidingWindow::new(1, 2)));
    assert_eq!(batch_ticks(&mut q, &wide), Ok(vec![1]));
    let p = BatchingPolicy::new(Some(8), None, WindowKind::Sliding(SlidingWindow::new(3, 1)));
    assert_eq!(batch_ticks(&mut q, &p), Ok(vec![3, 4]));
    assert_eq!(drain(&mut q), vec![4]);
}

#[test]
fn ringbuf_disjoint_batch_and_bytes() {
    let mut q: SpscRingbuf<Message<u32>> = SpscRingbuf::with_capacity(8);
    fill(&mut q, &[1, 2, 3]);
    assert_eq!(batch_ticks(&mut q, &BatchingPolicy::fixed(2)), Ok(vec![1, 2]));
    assert_eq!(*q.occupancy(&loose()).bytes(), 4);
    assert_eq!(*q.try_peek().unwrap().header().creation_tick().as_u64(), 3);
}

#[test]
fn atomic_ring_keeps_one_slot_free() {
    let mut q: SpscAtomicRing<Message<u32>> = SpscAtomicRing::with_capacity(4);
    fill(&mut q, &[1, 2, 3]);
    assert_eq!(q.try_push(msg(4), &loose()), EnqueueResult::Rejected);
    assert_eq!(*q.occupancy(&loose()).items(), 3);
    assert_eq!(*q.try_peek_at(2).unwrap().header().creation_tick().as_u64(), 3);
    assert_eq!(q.try_peek_at(3).err(), Some(QueueError::Empty));
    assert_eq!(drain(&mut q), vec![1, 2, 3]);
    // Wrap around the slot array several times.
    for round in 0..5u64 {
        fill(&mut q, &[round * 10, round * 10 + 1]);
        assert_eq!(drain(&mut q), vec![round * 10, round * 10 + 1]);
    }
}

#[test]
fn atomic_ring_admission_decisions() {
    let newest = EdgePolicy::new(QueueCaps::new(2, 2, None, None), AdmissionPolicy::DropNewest, OverBudgetAction::Drop);
    let mut q: SpscAtomicRing<Message<u32>> = SpscAtomicRing::with_capacity(8);
    assert_eq!(q.try_push(msg(1), &newest), EnqueueResult::Enqueued);
    assert_eq!(q.try_push(msg(2), &newest), EnqueueResult::Enqueued);
    assert_eq!(q.try_push(msg(3), &newest), EnqueueResult::DroppedNewest);

    let oldest = EdgePolicy::new(QueueCaps::new(2, 2, None, None), AdmissionPolicy::DropOldest, OverBudgetAction::Drop);
    assert_eq!(q.try_push(msg(4), &oldest), EnqueueResult::Enqueued);
    assert_eq!(drain(&mut q), vec![2, 4]);

    let block = EdgePolicy::new(QueueCaps::new(1, 1, None, None), AdmissionPolicy::Block, OverBudgetAction::Drop);
    assert_eq!(q.try_push(msg(5), &block), EnqueueResult::Enqueued);
    assert_eq!(q.try_push(msg(6), &block), EnqueueResult::Rejected);

    let aware = EdgePolicy::new(QueueCaps::new(1, 1, None, None), AdmissionPolicy::DeadlineAndQoSAware, OverBudgetAction::Degrade);
    assert_eq!(q.try_push(msg_qos(7, QoSClass::BestEffort), &aware), EnqueueResult::Rejected);
    assert_eq!(q.try_push(msg_qos(8, QoSClass::LatencyCritical), &aware), EnqueueResult::Enqueued);
    assert_eq!(drain(&mut q), vec![8]);
}

#[test]
fn atomic_ring_batches() {
    let mut q: SpscAtomicRing<Message<u32>> = SpscAtomicRing::with_capacity(8);
    fill(&mut q, &[1, 2, 3, 4, 5]);
    assert_eq!(batch_ticks(&mut q, &BatchingPolicy::fixed(2)), Ok(vec![1, 2]));
    // A sliding window shows at most the item cap.
    let p = BatchingPolicy::new(Some(2), None, WindowKind::Sliding(SlidingWindow::new(9, 1)));
    assert_eq!(batch_ticks(&mut q, &p), Ok(vec![3, 4]));
    assert_eq!(drain(&mut q), vec![4, 5]);
}

#[test]
fn enqueue_with_admission_follows_the_decision() {
    let p = EdgePolicy::new(QueueCaps::new(1, 1, None, None), AdmissionPolicy::DropNewest, OverBudgetAction::Drop);
    let mut q: HeapRing<Message<u32>> = HeapRing::with_capacity(4);
    assert_eq!(enqueue_with_admission(&mut q, &p, msg(1)), EnqueueResult::Enqueued);
    assert_eq!(enqueue_with_admission(&mut q, &p, msg(2)), EnqueueResult::DroppedNewest);
    let b = EdgePolicy::new(QueueCaps::new(1, 1, None, None), AdmissionPolicy::Block, OverBudgetAction::Drop);
    assert_eq!(enqueue_with_admission(&mut q, &b, msg(3)), EnqueueResult::Rejected);
    assert_eq!(drain(&mut q), vec![1]);
}

#[test]
fn no_queue_refuses_everything() {
    let mut q: NoQueue<u32> = NoQueue::new();
    assert_eq!(q.try_push(msg(1), &loose()), EnqueueResult::Rejected);
    assert_eq!(q.try_pop().err(), Some(QueueError::Empty));
    assert_eq!(q.try_peek().err(), Some(QueueError::Empty));
    assert_eq!(q.try_pop_batch(&BatchingPolicy::fixed(1)).err(), Some(QueueError::Empty));
    let occ = q.occupancy(&loose());
    assert_eq!((*occ.items(), *occ.bytes(), *occ.watermark()), (0, 0, WatermarkState::AtOrAboveHard));
}

#[test]
fn endpoints_restrict_to_one_side() {
    let q: HeapRing<Message<u32>> = HeapRing::with_capacity(4);
    let mut prod: ProducerEndpoint<u32, HeapRing<Message<u32>>> = ProducerEndpoint::new(q);
    assert_eq!(prod.try_push(msg(1), &loose()), EnqueueResult::Enqueued);
    assert_eq!(prod.try_pop().err(), Some(QueueError::Empty));
    assert_eq!(prod.try_peek().err(), Some(QueueError::Unsupported));
    assert_eq!(*prod.occupancy(&loose()).items(), 1);

    let mut cons: ConsumerEndpoint<u32, HeapRing<Message<u32>>> = ConsumerEndpoint::new(prod.into_inner());
    assert_eq!(cons.try_push(msg(2), &loose()), EnqueueResult::Rejected);
    assert_eq!(*cons.try_peek().unwrap().header().creation_tick().as_u64(), 1);
    assert_eq!(drain(&mut cons), vec![1]);
}

#[test]
fn peek_response_into_owned_and_clone() {
    let mut q: HeapRing<Message<u32>> = HeapRing::with_capacity(4);
    fill(&mut q, &[9]);
    let p = q.try_peek().unwrap();
    let c = p.clone();
    let m = p.into_owned();
    assert_eq!(*m.payload(), 9);
    assert_eq!(*c.header().creation_tick().as_u64(), 9);
    let owned = limen::edge::PeekResponse::Owned(msg(11));
    assert_eq!(*owned.clone().into_owned().payload(), 11);
    assert_eq!(ticks_of(&[owned.into_owned()]), vec![11]);
}

#[test]
fn buffered_queues_agree_on_disjoint_batches() {
    let ticks = [3, 4, 6, 20, 21, 22];
    let p = BatchingPolicy::new(Some(4), Some(Ticks::new(5)), WindowKind::Disjoint);
    let mut h: HeapRing<Message<u32>> = HeapRing::with_capacity(8);
    let mut r: SpscRingbuf<Message<u32>> = SpscRingbuf::with_capacity(8);
    let mut a: SpscAtomicRing<Message<u32>> = SpscAtomicRing::with_capacity(8);
    fill(&mut h, &ticks);
    fill(&mut r, &ticks);
    fill(&mut a, &ticks);
    for expected in [vec![3, 4, 6], vec![20, 21, 22]] {
        assert_eq!(batch_ticks(&mut h, &p), Ok(expected.clone()));
        assert_eq!(batch_ticks(&mut r, &p), Ok(expected.clone()));
        assert_eq!(batch_ticks(&mut a, &p), Ok(expected));
    }
    assert_eq!(batch_ticks(&mut h, &p), Err(QueueError::Empty));
    assert_eq!(batch_ticks(&mut r, &p), Err(QueueError::Empty));
    assert_eq!(batch_ticks(&mut a, &p), Err(QueueError::Empty));
}

#[test]
fn heap_ring_sliding_window_wider_stride_than_size() {
    let mut q: HeapRing<Message<u32>> = HeapRing::with_capacity(8);
    fill(&mut q, &[1, 2, 3, 4, 5]);
    let p = BatchingPolicy::new(Some(8), None, WindowKind::Sliding(SlidingWindow::new(2, 3)));
    assert_eq!(batch_ticks(&mut q, &p), Ok(vec![1, 2]));
    assert_eq!(drain(&mut q), vec![4, 5]);
}

#[test]
fn atomic_ring_sliding_window_presents_its_size() {
    let mut r: SpscAtomicRing<Message<u32>> = SpscAtomicRing::with_capacity(32);
    fill(&mut r, &[1, 2, 3, 4]);
    let p = BatchingPolicy::new(Some(8), None, WindowKind::Sliding(SlidingWindow::new(3, 1)));
    assert_eq!(batch_ticks(&mut r, &p), Ok(vec![1, 2, 3]));
    assert_eq!(drain(&mut r), vec![2, 3, 4]);
}
