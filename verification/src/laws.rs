//! Properties of the queues and policies that span several operations.

use vstd::prelude::*;
use crate::edge::queue_state::{bounded_push, drain_front, front_pop, QueueState};
use crate::edge::spsc_raw::{atomic_batch, atomic_pop, atomic_push, checked_admit, evict_below_hard, lemma_checked_admit_exact, lemma_evict_exact, lemma_evict_minimal, lemma_evict_suffix, lemma_wrap_drain_suffix, lemma_wrap_drain_exact, lemma_wrap_drain_items, lemma_wrap_drain_one_exact, lemma_wrap_drain_single, wrap_drain, wrap_push};
use crate::edge::spsc_vecdeque::{heap_batch, HeapRing};
use crate::edge::spsc_ringbuf::ring_batch;
use crate::edge::spsc_priority2::Priority2;
use crate::edge::queue_state::{disjoint_take, sliding_present, within_delta, lemma_batch_sizes, lemma_run_within_bounds};
use crate::edge::{admission_outcome, Edge, EnqueueResult};
use crate::graph::{lemma_refreshed_shape, readiness_of, refreshed, Readiness};
use crate::edge::EdgeOccupancy;
use crate::types::NodeIndex;
use crate::batch::flags_consistent;
use crate::edge::link::{same_name, EdgeDescriptor};
use vstd::std_specs::cmp::PartialEqSpec;
use crate::message::Payload;
use crate::policy::{effective_fixed_of, min_int, SlidingWindow};
use crate::registry::{has_key, registration};
use crate::types::QoSClass;
use crate::errors::QueueError;
use crate::message::{lemma_total_bytes_nonneg, lemma_total_bytes_split, total_bytes, Message};
use crate::policy::{decision_of, watermark_of, AdmissionDecision, AdmissionPolicy, OverBudgetAction, BatchingPolicy, EdgePolicy, QueueCaps, WatermarkState, WindowKind};

verus! {

/// Watermarks are monotone: more items and more bytes never give a lower level.
pub proof fn law_watermark_monotone(caps: QueueCaps, items1: int, bytes1: int, items2: int, bytes2: int)
    requires
        items1 <= items2,
        bytes1 <= bytes2,
    ensures
        watermark_of(caps, items1, bytes1).level() <= watermark_of(caps, items2, bytes2).level(),
{
}

/// A bounded queue never holds more than its capacity: a push keeps the length within it.
pub proof fn law_push_respects_capacity<P>(s: QueueState<Message<P>>, item: Message<P>, policy: EdgePolicy)
    requires
        s.items.len() <= s.capacity,
    ensures
        bounded_push(s, item, policy).0.items.len() <= s.capacity,
        bounded_push(s, item, policy).0.capacity == s.capacity,
{
}

/// Pushes are first-in first-out: an enqueued message becomes the last one, and
/// the messages before it are the old ones with at most the oldest evicted.
pub proof fn law_push_appends<P>(s: QueueState<Message<P>>, item: Message<P>, policy: EdgePolicy)
    requires
        bounded_push(s, item, policy).1 == EnqueueResult::Enqueued,
    ensures
        bounded_push(s, item, policy).0.items.last() == item,
        bounded_push(s, item, policy).0.items.drop_last() == s.items
            || bounded_push(s, item, policy).0.items.drop_last() == s.items.drop_first(),
{
    let r = bounded_push(s, item, policy).0;
    assert(r.items.drop_last() =~= s.items || r.items.drop_last() =~= s.items.skip(1));
    assert(s.items.skip(1) =~= s.items.drop_first());
}

/// A refused push leaves the queue as it was, except that under `DropOldest`
/// the oldest message may have been evicted first.
pub proof fn law_refused_push_keeps_order<P>(s: QueueState<Message<P>>, item: Message<P>, policy: EdgePolicy)
    requires
        bounded_push(s, item, policy).1 != EnqueueResult::Enqueued,
    ensures
        bounded_push(s, item, policy).0 == s
            || (policy.admission == AdmissionPolicy::DropOldest && bounded_push(s, item, policy).0 == drain_front(s, 1)),
{
}

/// Under `DropOldest`, a push between the soft and hard caps into a queue with
/// room left evicts exactly the oldest message and enqueues the new one.
pub proof fn law_drop_oldest_evicts_front<P>(s: QueueState<Message<P>>, item: Message<P>, policy: EdgePolicy)
    requires
        policy.admission == AdmissionPolicy::DropOldest,
        watermark_of(policy.caps, s.items.len() as int, s.bytes as int) == WatermarkState::BetweenSoftAndHard,
        0 < s.items.len() <= s.capacity,
    ensures
        bounded_push(s, item, policy).1 == EnqueueResult::Enqueued,
        bounded_push(s, item, policy).0.items == s.items.drop_first().push(item),
{
    assert(s.items.skip(1) =~= s.items.drop_first());
}

/// Round trip: a message pushed into an empty queue with room and below its
/// caps is the message the next pop returns, and the queue is empty again.
pub proof fn law_push_then_pop_returns_item<P>(s: QueueState<Message<P>>, item: Message<P>, policy: EdgePolicy)
    requires
        s.items.len() == 0,
        s.capacity >= 1,
        watermark_of(policy.caps, 0, s.bytes as int) == WatermarkState::BelowSoft,
    ensures
        bounded_push(s, item, policy).1 == EnqueueResult::Enqueued,
        front_pop(bounded_push(s, item, policy).0).1 == Ok::<Message<P>, QueueError>(item),
        front_pop(bounded_push(s, item, policy).0).0.items.len() == 0,
{
    let t = bounded_push(s, item, policy).0;
    assert(t.items =~= seq![item]);
    assert(t.items.skip(1) =~= Seq::<Message<P>>::empty());
}

/// Byte accounting is exact while the total fits: if the counter equals the sum
/// of the queued payload sizes before a push, and the new sum fits a `usize`,
/// it equals the new sum after the push.
pub proof fn law_push_keeps_byte_count<P>(s: QueueState<Message<P>>, item: Message<P>, policy: EdgePolicy)
    requires
        s.bytes == total_bytes(s.items),
        total_bytes(bounded_push(s, item, policy).0.items) <= usize::MAX,
    ensures
        bounded_push(s, item, policy).0.bytes == total_bytes(bounded_push(s, item, policy).0.items),
{
    let n = s.items.len() as int;
    if n > 0 {
        law_drain_keeps_byte_count(s, 1);
    }
    let s1 = if watermark_of(policy.caps, n, s.bytes as int) == WatermarkState::BetweenSoftAndHard
        && policy.admission == AdmissionPolicy::DropOldest && n > 0 {
        drain_front(s, 1)
    } else {
        s
    };
    assert(s1.items.push(item).drop_last() =~= s1.items);
}

/// Removing messages from the front keeps an exact byte counter exact.
pub proof fn law_drain_keeps_byte_count<P>(s: QueueState<Message<P>>, k: int)
    requires
        s.bytes == total_bytes(s.items),
        0 <= k <= s.items.len(),
    ensures
        drain_front(s, k).bytes == total_bytes(drain_front(s, k).items),
{
    lemma_total_bytes_split(s.items, k);
    lemma_total_bytes_nonneg(s.items.skip(k));
    lemma_total_bytes_nonneg(s.items.take(k));
}

/// A pop returns the oldest message and leaves the others in order.
pub proof fn law_pop_takes_front<P>(s: QueueState<Message<P>>)
    requires
        s.items.len() > 0,
    ensures
        front_pop(s).1 == Ok::<Message<P>, QueueError>(s.items[0]),
        front_pop(s).0.items == s.items.drop_first(),
{
    assert(s.items.skip(1) =~= s.items.drop_first());
}

/// A disjoint batch pop splits the queue, on each of the buffered queues: the
/// batch is a prefix of the queued messages, in order, and the queue keeps
/// exactly the rest.
pub proof fn law_disjoint_batch_splits_queue<P>(s: QueueState<Message<P>>, p: BatchingPolicy)
    requires
        p.window_kind == WindowKind::Disjoint,
    ensures
        heap_batch(s, p).1 is Ok ==> heap_batch(s, p).1->Ok_0 + heap_batch(s, p).0.items == s.items,
        ring_batch(s, p).1 is Ok ==> ring_batch(s, p).1->Ok_0 + ring_batch(s, p).0.items == s.items,
        atomic_batch(s, p).1 is Ok ==> atomic_batch(s, p).1->Ok_0 + atomic_batch(s, p).0.items == s.items,
{
    lemma_batch_sizes(s.items, p, 0);
    let k = disjoint_take(s.items, p);
    if s.items.len() > 0 && k > 0 {
        assert(s.items.take(k) + s.items.skip(k) =~= s.items);
        lemma_wrap_drain_items(s, k as nat);
    }
}

/// A sliding batch pop advances the queue by the stride, on each of the
/// buffered queues: the queue loses exactly its first `min(stride, len)`
/// messages, and the batch shows a non-empty prefix of the queue as it was, no
/// longer than the window size.
pub proof fn law_sliding_batch_advances_by_stride<P>(s: QueueState<Message<P>>, p: BatchingPolicy, sw: SlidingWindow)
    requires
        p.window_kind == WindowKind::Sliding(sw),
    ensures
        heap_batch(s, p).1 is Ok ==> {
            &&& heap_batch(s, p).0.items == s.items.skip(min_int(sw.stride as int, s.items.len() as int))
            &&& 0 < heap_batch(s, p).1->Ok_0.len() <= sw.size
            &&& heap_batch(s, p).1->Ok_0 == s.items.take(heap_batch(s, p).1->Ok_0.len() as int)
        },
        ring_batch(s, p).1 is Ok ==> {
            &&& ring_batch(s, p).0.items == s.items.skip(min_int(sw.stride as int, s.items.len() as int))
            &&& 0 < ring_batch(s, p).1->Ok_0.len() <= sw.size
            &&& ring_batch(s, p).1->Ok_0 == s.items.take(ring_batch(s, p).1->Ok_0.len() as int)
        },
        atomic_batch(s, p).1 is Ok ==> {
            &&& atomic_batch(s, p).0.items == s.items.skip(min_int(sw.stride as int, s.items.len() as int))
            &&& 0 < atomic_batch(s, p).1->Ok_0.len() <= sw.size
            &&& atomic_batch(s, p).1->Ok_0 == s.items.take(atomic_batch(s, p).1->Ok_0.len() as int)
        },
{
    let n = s.items.len() as int;
    if n > 0 {
        let stride = if sw.stride <= n { sw.stride as int } else { n };
        lemma_batch_sizes(s.items, p, sw.size as int);
        lemma_wrap_drain_items(s, stride as nat);
        let k = sliding_present(s.items, p, sw.size as int);
        assert(s.items.take(k) == s.items.take(s.items.take(k).len() as int));
    }
}

/// On the mask-indexed ring, an enqueue into an empty ring followed by a pop
/// returns the message and leaves the byte counter where it started.
pub proof fn law_ring_roundtrip_restores_bytes<P>(s: QueueState<Message<P>>, item: Message<P>, policy: EdgePolicy)
    requires
        s.items.len() == 0,
        checked_admit(s, item, policy).1 == EnqueueResult::Enqueued,
    ensures
        atomic_pop(checked_admit(s, item, policy).0).1 == Ok::<Message<P>, QueueError>(item),
        atomic_pop(checked_admit(s, item, policy).0).0.bytes == s.bytes,
        atomic_pop(checked_admit(s, item, policy).0).0.items.len() == 0,
{
    let t = wrap_push(s, item);
    assert(t.items[0] == item);
    let b = item.header.payload_size_bytes;
    let x = s.bytes;
    assert(x.wrapping_add(b).wrapping_sub(b) == x);
}


/// Every operation of the mask-indexed ring keeps its invariant: the ring never
/// holds more than its capacity (one less than its slots), the capacity does
/// not change, and an exact byte counter stays exact (on a push, while the new
/// total fits a `usize`).
pub proof fn law_ring_keeps_its_invariant<P>(s: QueueState<Message<P>>, item: Message<P>, policy: EdgePolicy, p: BatchingPolicy)
    requires
        s.items.len() <= s.capacity,
        s.bytes == total_bytes(s.items),
    ensures
        atomic_push(s, item, policy).0.items.len() <= s.capacity,
        atomic_push(s, item, policy).0.capacity == s.capacity,
        total_bytes(atomic_push(s, item, policy).0.items) <= usize::MAX ==>
            atomic_push(s, item, policy).0.bytes == total_bytes(atomic_push(s, item, policy).0.items),
        atomic_pop(s).0.items.len() <= s.capacity,
        atomic_pop(s).0.capacity == s.capacity,
        atomic_pop(s).0.bytes == total_bytes(atomic_pop(s).0.items),
        atomic_batch(s, p).0.items.len() <= s.capacity,
        atomic_batch(s, p).0.capacity == s.capacity,
        atomic_batch(s, p).0.bytes == total_bytes(atomic_batch(s, p).0.items),
{
    lemma_checked_admit_exact(s, item, policy);
    match decision_of(policy, s.items.len() as int, s.bytes as int, item.header.qos) {
        AdmissionDecision::Evict(n) => {
            lemma_wrap_drain_exact(s, n as nat);
            lemma_checked_admit_exact(wrap_drain(s, n as nat), item, policy);
        },
        AdmissionDecision::EvictUntilBelowHard => {
            lemma_evict_exact(s, policy.caps);
            lemma_checked_admit_exact(evict_below_hard(s, policy.caps), item, policy);
        },
        _ => {},
    }
    if s.items.len() > 0 {
        lemma_wrap_drain_one_exact(s);
    }
    lemma_wrap_drain_exact(s, disjoint_take(s.items, p) as nat);
    let n = s.items.len() as int;
    if let WindowKind::Sliding(sw) = p.window_kind {
        let stride = if sw.stride <= n { sw.stride as int } else { n };
        if stride >= 0 {
            lemma_wrap_drain_exact(s, stride as nat);
        }
    }
}

/// A push into the mask-indexed ring keeps a suffix of the queue, in order:
/// the ring afterwards holds the queued messages behind the first `e`, followed
/// by the new message exactly when it was enqueued; messages are evicted
/// (`e > 0`) only on an eviction decision.
pub proof fn law_ring_push_keeps_a_suffix<P>(s: QueueState<Message<P>>, item: Message<P>, policy: EdgePolicy)
    ensures
        exists|e: int| {
            &&& 0 <= e <= s.items.len()
            &&& atomic_push(s, item, policy).1 == EnqueueResult::Enqueued ==>
                    atomic_push(s, item, policy).0.items == s.items.skip(e).push(item)
            &&& atomic_push(s, item, policy).1 != EnqueueResult::Enqueued ==>
                    atomic_push(s, item, policy).0.items == s.items.skip(e)
            &&& e > 0 ==> (decision_of(policy, s.items.len() as int, s.bytes as int, item.header.qos) is Evict
                || decision_of(policy, s.items.len() as int, s.bytes as int, item.header.qos) is EvictUntilBelowHard)
        },
{
    let e: int = match decision_of(policy, s.items.len() as int, s.bytes as int, item.header.qos) {
        AdmissionDecision::Evict(n) => {
            lemma_wrap_drain_suffix(s, n as nat);
            if n <= s.items.len() { n as int } else { s.items.len() as int }
        },
        AdmissionDecision::EvictUntilBelowHard => lemma_evict_suffix(s, policy.caps),
        _ => {
            assert(s.items.skip(0) =~= s.items);
            0
        },
    };
    assert(0 <= e <= s.items.len());
}

/// Under `DropOldest`, a push into the mask-indexed ring between the soft and
/// hard caps, into a non-empty ring with an exact byte counter, evicts exactly
/// the oldest message and enqueues the new one.
pub proof fn law_ring_drop_oldest_evicts_front<P>(s: QueueState<Message<P>>, item: Message<P>, policy: EdgePolicy)
    requires
        policy.admission == AdmissionPolicy::DropOldest,
        watermark_of(policy.caps, s.items.len() as int, s.bytes as int) == WatermarkState::BetweenSoftAndHard,
        0 < s.items.len() <= s.capacity,
        s.bytes == total_bytes(s.items),
    ensures
        atomic_push(s, item, policy).1 == EnqueueResult::Enqueued,
        atomic_push(s, item, policy).0.items == s.items.drop_first().push(item),
{
    lemma_wrap_drain_single(s);
    lemma_wrap_drain_one_exact(s);
    lemma_total_bytes_split(s.items, 1);
    assert(s.items.take(1).drop_last() =~= Seq::<Message<P>>::empty());
    assert(s.items.take(1).last() == s.items[0]);
    assert(total_bytes(Seq::<Message<P>>::empty()) == 0);
    lemma_total_bytes_nonneg(s.items.skip(1));
}

/// Under any eviction decision `Evict(n)` the ring first loses its
/// `min(n, len)` oldest messages, in order; the new message is then appended
/// exactly when it is enqueued.
pub proof fn law_ring_evict_removes_front<P>(s: QueueState<Message<P>>, item: Message<P>, policy: EdgePolicy, n: usize)
    requires
        decision_of(policy, s.items.len() as int, s.bytes as int, item.header.qos) == AdmissionDecision::Evict(n),
    ensures
        ({
            let k = min_int(n as int, s.items.len() as int);
            &&& atomic_push(s, item, policy).1 == EnqueueResult::Enqueued ==>
                    atomic_push(s, item, policy).0.items == s.items.skip(k).push(item)
            &&& atomic_push(s, item, policy).1 != EnqueueResult::Enqueued ==>
                    atomic_push(s, item, policy).0.items == s.items.skip(k)
        }),
{
    lemma_wrap_drain_suffix(s, n as nat);
}

/// Under an `EvictUntilBelowHard` decision on a ring with an exact byte counter,
/// the ring keeps the longest suffix of its messages that is below the hard cap
/// (nothing when no non-empty suffix is), and then appends the new message
/// exactly when it is enqueued.
pub proof fn law_ring_evicts_until_below_hard<P>(s: QueueState<Message<P>>, item: Message<P>, policy: EdgePolicy)
    requires
        decision_of(policy, s.items.len() as int, s.bytes as int, item.header.qos) == AdmissionDecision::EvictUntilBelowHard,
        s.bytes == total_bytes(s.items),
    ensures
        exists|e: int| {
            &&& 0 <= e <= s.items.len()
            &&& e < s.items.len() ==> !policy.caps.hard_reached(s.items.len() - e, total_bytes(s.items.skip(e)))
            &&& forall|j: int| 0 <= j < e ==> policy.caps.hard_reached(s.items.len() - j, #[trigger] total_bytes(s.items.skip(j)))
            &&& atomic_push(s, item, policy).1 == EnqueueResult::Enqueued ==>
                    atomic_push(s, item, policy).0.items == s.items.skip(e).push(item)
            &&& atomic_push(s, item, policy).1 != EnqueueResult::Enqueued ==>
                    atomic_push(s, item, policy).0.items == s.items.skip(e)
        },
{
    let e = lemma_evict_minimal(s, policy.caps);
    assert(0 <= e <= s.items.len());
}

/// The priority edge routes by QoS: a latency-critical message is pushed into
/// the high lane only, any other message into the low lane only.
pub proof fn law_priority_routes_by_qos<QHi: Edge<P>, QLo: Edge<P>, P: Payload + Clone>(
    m: (QHi::Model, QLo::Model),
    item: Message<P>,
    policy: EdgePolicy,
)
    ensures
        item.header.qos == QoSClass::LatencyCritical ==> {
            &&& Priority2::<QHi, QLo, P>::push_model(m, item, policy).0.1 == m.1
            &&& Priority2::<QHi, QLo, P>::push_model(m, item, policy) == ((QHi::push_model(m.0, item, policy).0, m.1), QHi::push_model(m.0, item, policy).1)
        },
        item.header.qos != QoSClass::LatencyCritical ==> {
            &&& Priority2::<QHi, QLo, P>::push_model(m, item, policy).0.0 == m.0
            &&& Priority2::<QHi, QLo, P>::push_model(m, item, policy) == ((m.0, QLo::push_model(m.1, item, policy).0), QLo::push_model(m.1, item, policy).1)
        },
{
}

/// The priority edge reads the high lane first: whenever the high lane yields a
/// message, that is the message popped, and the low lane is untouched; the low
/// lane is read only when the high lane reports it is empty.
pub proof fn law_priority_prefers_high_lane<QHi: Edge<P>, QLo: Edge<P>, P: Payload + Clone>(m: (QHi::Model, QLo::Model))
    ensures
        QHi::pop_model(m.0).1 is Ok ==> Priority2::<QHi, QLo, P>::pop_model(m) == ((QHi::pop_model(m.0).0, m.1), QHi::pop_model(m.0).1),
        QHi::pop_model(m.0).1 != Err::<Message<P>, QueueError>(QueueError::Empty) ==> Priority2::<QHi, QLo, P>::pop_model(m).0.1 == m.1,
        QHi::pop_model(m.0).1 == Err::<Message<P>, QueueError>(QueueError::Empty) ==>
            Priority2::<QHi, QLo, P>::pop_model(m).1 == QLo::pop_model(m.1).1,
{
}

/// The priority edge peeks the high lane first: at every position, when the
/// high lane reports itself empty the peek shows what the low lane shows there;
/// otherwise it shows the high lane's answer.
pub proof fn law_priority_peek_falls_back_to_low_lane<QHi: Edge<P>, QLo: Edge<P>, P: Payload + Clone>(
    m: (QHi::Model, QLo::Model),
    index: int,
)
    ensures
        QHi::peek_model(m.0, index) == Err::<Message<P>, QueueError>(QueueError::Empty) ==>
            Priority2::<QHi, QLo, P>::peek_model(m, index) == QLo::peek_model(m.1, index),
        QHi::peek_model(m.0, index) != Err::<Message<P>, QueueError>(QueueError::Empty) ==>
            Priority2::<QHi, QLo, P>::peek_model(m, index) == QHi::peek_model(m.0, index),
{
}

/// The priority edge takes a batch from the high lane first: when the high lane
/// reports itself empty, the batch is the low lane's batch and the low lane
/// advances as its own batch pop would; otherwise the batch is the high lane's
/// and the low lane is untouched.
pub proof fn law_priority_batch_falls_back_to_low_lane<QHi: Edge<P>, QLo: Edge<P>, P: Payload + Clone>(
    m: (QHi::Model, QLo::Model),
    policy: BatchingPolicy,
)
    ensures
        QHi::batch_model(m.0, policy).1 == Err::<Seq<Message<P>>, QueueError>(QueueError::Empty) ==>
            Priority2::<QHi, QLo, P>::batch_model(m, policy)
                == ((QHi::batch_model(m.0, policy).0, QLo::batch_model(m.1, policy).0), QLo::batch_model(m.1, policy).1),
        QHi::batch_model(m.0, policy).1 != Err::<Seq<Message<P>>, QueueError>(QueueError::Empty) ==>
            Priority2::<QHi, QLo, P>::batch_model(m, policy)
                == ((QHi::batch_model(m.0, policy).0, m.1), QHi::batch_model(m.0, policy).1),
{
}

/// A priority edge of heap-ring lanes whose high lane is empty serves the low
/// lane: a peek at any position within the low lane shows its message there (so
/// the edge is not empty), and a disjoint batch of up to `n > 0` messages is
/// the low lane's first `min(n, len)` messages, which leave the low lane.
pub proof fn law_priority_heap_lanes_serve_low_when_high_empty<P: Payload + Clone>(
    m: (QueueState<Message<P>>, QueueState<Message<P>>),
    index: int,
    n: usize,
)
    requires
        m.0.items.len() == 0,
        m.1.items.len() > 0,
        n > 0,
    ensures
        0 <= index < m.1.items.len() ==>
            Priority2::<HeapRing<Message<P>>, HeapRing<Message<P>>, P>::peek_model(m, index) == Ok::<Message<P>, QueueError>(m.1.items[index]),
        Priority2::<HeapRing<Message<P>>, HeapRing<Message<P>>, P>::peek_model(m, 0) is Ok,
        ({
            let k = min_int(n as int, m.1.items.len() as int);
            let b = Priority2::<HeapRing<Message<P>>, HeapRing<Message<P>>, P>::batch_model(m, BatchingPolicy {
                fixed_n: Some(n),
                max_delta_t: None,
                window_kind: WindowKind::Disjoint,
            });
            &&& b.1 == Ok::<Seq<Message<P>>, QueueError>(m.1.items.take(k))
            &&& b.0.1.items == m.1.items.skip(k)
            &&& b.0.0.items.len() == 0
        }),
{
    let p = BatchingPolicy { fixed_n: Some(n), max_delta_t: None, window_kind: WindowKind::Disjoint };
    lemma_batch_sizes(m.1.items, p, 0);
}

/// The occupancy of the priority edge is the sum of its lanes' occupancies.
pub proof fn law_priority_occupancy_is_sum<QHi: Edge<P>, QLo: Edge<P>, P: Payload + Clone>(m: (QHi::Model, QLo::Model), policy: EdgePolicy)
    requires
        Priority2::<QHi, QLo, P>::occupancy_defined(m),
    ensures
        Priority2::<QHi, QLo, P>::occupancy_model(m, policy).items == QHi::occupancy_model(m.0, policy).items + QLo::occupancy_model(m.1, policy).items,
        Priority2::<QHi, QLo, P>::occupancy_model(m, policy).bytes == QHi::occupancy_model(m.0, policy).bytes + QLo::occupancy_model(m.1, policy).bytes,
{
    assert(QHi::occupancy_model(m.0, policy).items + QLo::occupancy_model(m.1, policy).items <= usize::MAX);
}

/// Batches honour the batching policy: a disjoint batch never holds more than
/// the item cap, and every message of it was created within the age cap of the
/// batch's first message.
pub proof fn law_disjoint_batch_within_caps<P>(s: QueueState<Message<P>>, p: BatchingPolicy)
    requires
        p.window_kind == WindowKind::Disjoint,
        heap_batch(s, p).1 is Ok,
    ensures
        effective_fixed_of(p) matches Some(n) ==> heap_batch(s, p).1->Ok_0.len() <= n,
        p.max_delta_t matches Some(cap) ==> forall|i: int| 0 <= i < heap_batch(s, p).1->Ok_0.len() ==>
            within_delta(#[trigger] heap_batch(s, p).1->Ok_0[i], heap_batch(s, p).1->Ok_0[0].header.creation_tick, cap),
{
    lemma_batch_sizes(s.items, p, 0);
    let b = heap_batch(s, p).1->Ok_0;
    if let Some(cap) = p.max_delta_t {
        lemma_run_within_bounds(s.items, s.items[0].header.creation_tick, cap, 0);
        assert forall|i: int| 0 <= i < b.len() implies within_delta(#[trigger] b[i], b[0].header.creation_tick, cap) by {
            assert(b[i] == s.items[i]);
        }
    }
}

/// The buffered queues agree on batches: from the same contents and under the
/// same batching policy, the heap ring, the ring buffer and the mask-indexed
/// ring hand out the same batch, or the same error, and keep the same messages.
pub proof fn law_buffered_batches_agree<P>(s: QueueState<Message<P>>, p: BatchingPolicy)
    ensures
        ring_batch(s, p).1 == heap_batch(s, p).1,
        atomic_batch(s, p).1 == heap_batch(s, p).1,
        ring_batch(s, p).0.items == heap_batch(s, p).0.items,
        atomic_batch(s, p).0.items == heap_batch(s, p).0.items,
{
    let n = s.items.len() as int;
    if n > 0 {
        match p.window_kind {
            WindowKind::Disjoint => {
                lemma_batch_sizes(s.items, p, 0);
                let k = disjoint_take(s.items, p);
                if k > 0 {
                    lemma_wrap_drain_items(s, k as nat);
                }
            },
            WindowKind::Sliding(sw) => {
                let stride = if sw.stride <= n { sw.stride as int } else { n };
                lemma_wrap_drain_items(s, stride as nat);
            },
        }
    }
}

/// Descriptor equality compares the four parts: two descriptors are equal
/// exactly when their ids, upstream ports and downstream ports are equal and
/// their names are both absent or hold the same text; it is an equivalence.
pub proof fn law_descriptor_equality(a: EdgeDescriptor, b: EdgeDescriptor, c: EdgeDescriptor)
    ensures
        a.eq_spec(&b) <==> {
            &&& a.spec_id() == b.spec_id()
            &&& a.spec_upstream() == b.spec_upstream()
            &&& a.spec_downstream() == b.spec_downstream()
            &&& same_name(a.spec_name(), b.spec_name())
        },
        a.eq_spec(&a),
        a.eq_spec(&b) ==> b.eq_spec(&a),
        a.eq_spec(&b) && b.eq_spec(&c) ==> a.eq_spec(&c),
{
}

/// The flag check of a batch accepts exactly the batches whose flags match their
/// boundaries: an empty batch, or one whose first message is flagged first, whose
/// last message is flagged last, and whose messages in between carry neither
/// flag (a single message carries both).
pub proof fn law_flag_check_accepts_matching_boundaries<P>(msgs: Seq<Message<P>>)
    ensures
        flags_consistent(msgs) <==> (msgs.len() == 0 || {
            &&& msgs[0].header.flags.first_in_batch
            &&& msgs.last().header.flags.last_in_batch
            &&& forall|i: int| 0 < i < msgs.len() - 1 ==> !(#[trigger] msgs[i]).header.flags.first_in_batch
                && !msgs[i].header.flags.last_in_batch
        }),
{
}

/// How pressured a readiness is: not ready, ready, ready under pressure.
pub open spec fn readiness_rank(r: Readiness) -> int {
    match r {
        Readiness::NotReady => 0,
        Readiness::Ready => 1,
        Readiness::ReadyUnderPressure => 2,
    }
}

/// A worker's readiness: without waiting input it is not ready; with input and
/// no output it is ready; with input it is ready under pressure exactly when
/// the output is at or above its soft cap (at least `BetweenSoftAndHard`), and
/// a higher output watermark never gives a less pressured readiness.
pub proof fn law_readiness_follows_input_and_backpressure(w1: WatermarkState, w2: WatermarkState, b: Option<WatermarkState>)
    ensures
        readiness_of(false, b) == Readiness::NotReady,
        readiness_of(true, None) == Readiness::Ready,
        readiness_of(true, Some(w1)) == Readiness::ReadyUnderPressure
            <==> w1.level() >= WatermarkState::BetweenSoftAndHard.level(),
        readiness_of(true, Some(w1)) == Readiness::Ready
            <==> w1.level() < WatermarkState::BetweenSoftAndHard.level(),
        readiness_of(true, Some(WatermarkState::AtOrAboveHard)) == Readiness::ReadyUnderPressure,
        w1.level() <= w2.level() ==>
            readiness_rank(readiness_of(true, Some(w1))) <= readiness_rank(readiness_of(true, Some(w2))),
{
}

/// Admission before a push: when the policy's decision at the queue's current
/// occupancy is to drop, refuse or block, the message is not enqueued and the
/// queue is unchanged (a drop reports `DroppedNewest`, a refusal or a block
/// `Rejected`); only admitting and evicting decisions hand the message to the
/// queue's own push.
pub proof fn law_admission_refusals_leave_queue_unchanged<P: Payload + Clone, Q: Edge<P>>(
    d: AdmissionDecision,
    m: Q::Model,
    msg: Message<P>,
    policy: EdgePolicy,
)
    ensures
        d == AdmissionDecision::Reject ==> admission_outcome::<P, Q>(d, m, msg, policy) == (m, EnqueueResult::Rejected),
        d == AdmissionDecision::Block ==> admission_outcome::<P, Q>(d, m, msg, policy) == (m, EnqueueResult::Rejected),
        d == AdmissionDecision::DropNewest ==> admission_outcome::<P, Q>(d, m, msg, policy) == (m, EnqueueResult::DroppedNewest),
        (d is Reject || d is Block || d is DropNewest) ==>
            admission_outcome::<P, Q>(d, m, msg, policy).1 != EnqueueResult::Enqueued,
        (d is Admit || d is Evict || d is EvictUntilBelowHard) ==>
            admission_outcome::<P, Q>(d, m, msg, policy) == Q::push_model(m, msg, policy),
{
}

/// On a heap ring, a message that the policy refuses at the queue's occupancy
/// (`DeadlineAndQoSAware`, not latency-critical, at the hard cap, with an
/// over-budget action other than dropping) is rejected by
/// `enqueue_with_admission` and the queue keeps its messages.
pub proof fn law_heap_refused_message_is_not_queued<P: Payload + Clone>(s: QueueState<Message<P>>, msg: Message<P>, policy: EdgePolicy)
    requires
        policy.admission == AdmissionPolicy::DeadlineAndQoSAware,
        policy.over_budget != OverBudgetAction::Drop,
        msg.header.qos != QoSClass::LatencyCritical,
        policy.caps.hard_reached(s.items.len() as int, s.bytes as int),
        s.items.len() <= s.capacity,
    ensures
        ({
            let occ = HeapRing::<Message<P>>::occupancy_model(s, policy);
            let d = decision_of(policy, occ.items as int, occ.bytes as int, msg.header.qos);
            &&& d == AdmissionDecision::Reject
            &&& admission_outcome::<P, HeapRing<Message<P>>>(d, s, msg, policy) == (s, EnqueueResult::Rejected)
        }),
{
}

/// Refreshing the occupancies of a node's edges fails exactly when an edge with
/// the node at either end has an id outside the table; otherwise every entry
/// whose id is that of such an edge holds its fresh sample, and every other
/// entry keeps its old value.
pub proof fn law_refresh_updates_exactly_the_node_edges(
    descs: Seq<EdgeDescriptor>,
    n: NodeIndex,
    samples: Seq<EdgeOccupancy>,
    out: Seq<EdgeOccupancy>,
)
    requires
        samples.len() == out.len(),
    ensures
        (refreshed(descs, n, samples, out, descs.len() as int) is Ok) <==> (forall|i: int|
            0 <= i < descs.len() && (#[trigger] descs[i].spec_upstream().node == n || descs[i].spec_downstream().node == n)
                ==> descs[i].spec_id().0 < out.len()),
        refreshed(descs, n, samples, out, descs.len() as int) matches Ok(o) ==> {
            &&& o.len() == out.len()
            &&& forall|j: int| 0 <= j < out.len() ==> #[trigger] o[j] == (if exists|i: int|
                    0 <= i < descs.len() && (descs[i].spec_upstream().node == n || descs[i].spec_downstream().node == n)
                        && #[trigger] descs[i].spec_id().0 == j {
                    samples[j]
                } else {
                    out[j]
                })
        },
{
    lemma_refreshed_shape(descs, n, samples, out, descs.len() as int);
}

/// Admission decisions by occupancy: below the soft cap every item is admitted;
/// below the hard cap nothing is refused, dropped or blocked; at the hard cap
/// nothing is admitted without eviction; and only `DropOldest`, or a
/// latency-critical item under `DeadlineAndQoSAware`, ever evicts.
pub proof fn law_admission_decisions_by_occupancy(policy: EdgePolicy, items: int, bytes: int, qos: QoSClass)
    ensures
        !policy.caps.soft_reached(items, bytes) && !policy.caps.hard_reached(items, bytes) ==>
            decision_of(policy, items, bytes, qos) == AdmissionDecision::Admit,
        !policy.caps.hard_reached(items, bytes) ==>
            (decision_of(policy, items, bytes, qos) is Admit || decision_of(policy, items, bytes, qos) is Evict),
        policy.caps.hard_reached(items, bytes) ==>
            !(decision_of(policy, items, bytes, qos) is Admit) && !(decision_of(policy, items, bytes, qos) is Evict),
        (decision_of(policy, items, bytes, qos) is Evict || decision_of(policy, items, bytes, qos) is EvictUntilBelowHard) ==>
            (policy.admission == AdmissionPolicy::DropOldest
                || (policy.admission == AdmissionPolicy::DeadlineAndQoSAware && qos == QoSClass::LatencyCritical)),
        policy.admission == AdmissionPolicy::DropNewest && policy.caps.hard_reached(items, bytes) ==>
            decision_of(policy, items, bytes, qos) == AdmissionDecision::DropNewest,
        policy.admission == AdmissionPolicy::Block && policy.caps.hard_reached(items, bytes) ==>
            decision_of(policy, items, bytes, qos) == AdmissionDecision::Block,
{
}

/// A key can be registered only once: a registration under a key that is
/// already present is refused and leaves the registry as it was.
pub proof fn law_registered_key_is_refused_again<F>(
    before: Seq<(Seq<char>, F)>,
    middle: Seq<(Seq<char>, F)>,
    after: Seq<(Seq<char>, F)>,
    kind: Seq<char>,
    key: Seq<char>,
    f1: F,
    f2: F,
    r1: Result<(), crate::errors::RuntimeError>,
    r2: Result<(), crate::errors::RuntimeError>,
)
    requires
        registration(before, middle, kind, key, f1, r1),
        registration(middle, after, kind, key, f2, r2),
    ensures
        r2 is Err,
        after == middle,
        has_key(middle, key),
{
    if !has_key(before, key) {
        assert(middle[middle.len() - 1].0 == key);
    }
}

} // verus!
