//! Abstract state shared by the bounded FIFO queues, and the spec functions
//! their contracts are written in.

use vstd::prelude::*;
use crate::message::{lemma_total_bytes_nonneg, total_bytes, Message};
use crate::edge::{EdgeOccupancy, EnqueueResult};
use crate::errors::QueueError;
use crate::policy::{capped, effective_fixed_of, min_int, watermark_of, AdmissionPolicy, BatchingPolicy, EdgePolicy, WatermarkState};
use crate::types::Ticks;

verus! {

/// Abstract state of a bounded FIFO queue.
pub struct QueueState<T> {
    /// Queued items, oldest first.
    pub items: Seq<T>,
    /// The byte counter the queue keeps.
    pub bytes: usize,
    /// How many messages the queue can hold at once.
    pub capacity: usize,
}

/// `a - b` clamped at zero.
pub open spec fn floor_sub(a: usize, b: int) -> usize {
    if a >= b { (a - b) as usize } else { 0 }
}

/// Remove the first `k` messages; the byte counter drops by their payload sizes, clamped at zero.
pub open spec fn drain_front<P>(s: QueueState<Message<P>>, k: int) -> QueueState<Message<P>> {
    QueueState {
        items: s.items.skip(k),
        bytes: floor_sub(s.bytes, total_bytes(s.items.take(k))),
        capacity: s.capacity,
    }
}

/// Append a message; the byte counter grows by its payload size, saturating.
pub open spec fn push_back<P>(s: QueueState<Message<P>>, item: Message<P>) -> QueueState<Message<P>> {
    QueueState {
        items: s.items.push(item),
        bytes: s.bytes.saturating_add(item.header.payload_size_bytes),
        capacity: s.capacity,
    }
}

/// Whether `m` was created no more than `cap` ticks after `front`.
pub open spec fn within_delta<P>(m: Message<P>, front: Ticks, cap: Ticks) -> bool {
    m.header.creation_tick.0.saturating_sub(front.0) <= cap.0
}

/// The end of the run of messages from `i` on that lie within `cap` of `front`.
pub open spec fn run_within<P>(items: Seq<Message<P>>, front: Ticks, cap: Ticks, i: int) -> int
    decreases items.len() - i,
{
    if 0 <= i < items.len() && within_delta(items[i], front, cap) {
        run_within(items, front, cap, i + 1)
    } else {
        i
    }
}

/// Number of leading messages created within `cap` ticks of the first one.
pub open spec fn delta_count<P>(items: Seq<Message<P>>, cap: Ticks) -> int {
    if items.len() == 0 {
        0
    } else {
        run_within(items, items[0].header.creation_tick, cap, 0)
    }
}

/// How many leading messages the age cap of `p` admits into a batch.
pub open spec fn delta_limit<P>(items: Seq<Message<P>>, p: BatchingPolicy) -> int {
    match p.max_delta_t {
        Some(cap) => delta_count(items, cap),
        None => items.len() as int,
    }
}

/// Size of a disjoint batch: the age limit, capped by the effective item cap.
pub open spec fn disjoint_take<P>(items: Seq<Message<P>>, p: BatchingPolicy) -> int {
    capped(effective_fixed_of(p), min_int(items.len() as int, delta_limit(items, p)))
}

/// Number of messages a sliding window of `size` presents.
pub open spec fn sliding_present<P>(items: Seq<Message<P>>, p: BatchingPolicy, size: int) -> int {
    capped(effective_fixed_of(p), min_int(min_int(items.len() as int, size), delta_limit(items, p)))
}

/// `run_within` stays between its start and the length.
pub proof fn lemma_run_within_bounds<P>(items: Seq<Message<P>>, front: Ticks, cap: Ticks, i: int)
    requires
        0 <= i <= items.len(),
    ensures
        i <= run_within(items, front, cap, i) <= items.len(),
        forall|j: int| i <= j < run_within(items, front, cap, i) ==> within_delta(#[trigger] items[j], front, cap),
        run_within(items, front, cap, i) < items.len() ==> !within_delta(items[run_within(items, front, cap, i)], front, cap),
    decreases items.len() - i,
{
    if i < items.len() && within_delta(items[i], front, cap) {
        lemma_run_within_bounds(items, front, cap, i + 1);
    }
}

/// The delta count of a non-empty queue is at least one and at most its length.
pub proof fn lemma_delta_count_bounds<P>(items: Seq<Message<P>>, cap: Ticks)
    ensures
        0 <= delta_count(items, cap) <= items.len(),
        items.len() > 0 ==> delta_count(items, cap) >= 1,
{
    if items.len() > 0 {
        lemma_run_within_bounds(items, items[0].header.creation_tick, cap, 0);
    }
}

/// The bounds of the batch sizes.
pub proof fn lemma_batch_sizes<P>(items: Seq<Message<P>>, p: BatchingPolicy, size: int)
    ensures
        0 <= delta_limit(items, p) <= items.len(),
        disjoint_take(items, p) <= items.len(),
        delta_limit(items, p) >= 0 ==> disjoint_take(items, p) >= 0,
        sliding_present(items, p, size) <= items.len(),
        size >= 0 ==> sliding_present(items, p, size) >= 0,
{
    if let Some(c) = p.max_delta_t {
        lemma_delta_count_bounds(items, c);
    }
}

/// Removing the front message lowers the counter by its size, clamped.
pub proof fn lemma_drain_one<P>(s: QueueState<Message<P>>)
    requires
        s.items.len() > 0,
    ensures
        drain_front(s, 1).items == s.items.drop_first(),
        drain_front(s, 1).bytes == s.bytes.saturating_sub(s.items[0].header.payload_size_bytes),
{
    assert(s.items.take(1).drop_last() =~= Seq::<Message<P>>::empty());
    assert(s.items.take(1).last() == s.items[0]);
    assert(total_bytes(Seq::<Message<P>>::empty()) == 0);
    assert(total_bytes(s.items.take(1)) == s.items[0].header.payload_size_bytes);
    assert(s.items.skip(1) =~= s.items.drop_first());
}

/// Draining `k` then one more is draining `k + 1`.
pub proof fn lemma_drain_step<P>(s: QueueState<Message<P>>, k: int)
    requires
        0 <= k < s.items.len(),
    ensures
        drain_front(s, k + 1) == drain_front(drain_front(s, k), 1),
{
    let t = drain_front(s, k);
    lemma_drain_one(t);
    assert(s.items.skip(k + 1) =~= s.items.skip(k).drop_first());
    assert(s.items.take(k + 1).drop_last() =~= s.items.take(k));
    assert(s.items.take(k + 1).last() == s.items.skip(k)[0]);
    lemma_total_bytes_nonneg(s.items.take(k));
}


/// Push into a bounded queue: refuse when at the hard cap and full; under
/// `DropOldest` between the soft and hard caps evict the oldest message first;
/// then enqueue unless the queue is full.
pub open spec fn bounded_push<P>(s: QueueState<Message<P>>, item: Message<P>, policy: EdgePolicy) -> (QueueState<Message<P>>, EnqueueResult) {
    let n = s.items.len() as int;
    if policy.caps.hard_reached(n, s.bytes as int) && n >= s.capacity {
        (s, EnqueueResult::Rejected)
    } else {
        let s1 = if watermark_of(policy.caps, n, s.bytes as int) == WatermarkState::BetweenSoftAndHard
            && policy.admission == AdmissionPolicy::DropOldest && n > 0 {
            drain_front(s, 1)
        } else {
            s
        };
        if s1.items.len() >= s1.capacity {
            (s1, EnqueueResult::Rejected)
        } else {
            (push_back(s1, item), EnqueueResult::Enqueued)
        }
    }
}

/// Pop the front message, or report an empty queue.
pub open spec fn front_pop<P>(s: QueueState<Message<P>>) -> (QueueState<Message<P>>, Result<Message<P>, QueueError>) {
    if s.items.len() == 0 {
        (s, Err(QueueError::Empty))
    } else {
        (drain_front(s, 1), Ok(s.items[0]))
    }
}

/// Occupancy of a queue: its length, its byte counter and the watermark they give.
pub open spec fn queue_occupancy<P>(s: QueueState<Message<P>>, policy: EdgePolicy) -> EdgeOccupancy {
    EdgeOccupancy {
        items: s.items.len() as usize,
        bytes: s.bytes,
        watermark: watermark_of(policy.caps, s.items.len() as int, s.bytes as int),
    }
}

/// The message at position `index`, or an empty-queue error when there is none.
pub open spec fn peek_index<P>(s: QueueState<Message<P>>, index: int) -> Result<Message<P>, QueueError> {
    if 0 <= index < s.items.len() {
        Ok(s.items[index])
    } else {
        Err(QueueError::Empty)
    }
}

} // verus!
