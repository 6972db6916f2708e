//! Heap-backed SPSC ring with a fixed logical capacity, built on `VecDeque`.

use std::collections::VecDeque;
use vstd::prelude::*;
use crate::batch::BatchView;
use crate::edge::queue_state::{bounded_push, delta_count, disjoint_take, drain_front, front_pop, lemma_batch_sizes, lemma_drain_one, lemma_run_within_bounds, peek_index, queue_occupancy, run_within, sliding_present, QueueState};
use crate::edge::{Edge, EdgeOccupancy, EnqueueResult, PeekResponse};
use crate::errors::QueueError;
use crate::message::{copy_of, lemma_total_bytes_nonneg, total_bytes, Message, Payload};
use crate::policy::{apply_fixed, min_usize, AdmissionPolicy, BatchingPolicy, EdgePolicy, WatermarkState, WindowKind};
use crate::types::Ticks;

verus! {

/// A heap ring holding at most `cap` items, with a byte counter for admission decisions.
pub struct HeapRing<T> {
    buf: VecDeque<T>,
    cap: usize,
    bytes: usize,
}

impl<T> View for HeapRing<T> {
    type V = QueueState<T>;

    closed spec fn view(&self) -> QueueState<T> {
        QueueState { items: self.buf@, bytes: self.bytes, capacity: self.cap }
    }
}

/// Batch pop of a heap ring. Disjoint windows pop up to the batch size; sliding
/// windows present (as clones) up to `size` messages and then pop `stride`.
pub open spec fn heap_batch<P>(s: QueueState<Message<P>>, p: BatchingPolicy) -> (QueueState<Message<P>>, Result<Seq<Message<P>>, QueueError>) {
    let n = s.items.len() as int;
    if n == 0 {
        (s, Err(QueueError::Empty))
    } else {
        match p.window_kind {
            WindowKind::Disjoint => {
                let k = disjoint_take(s.items, p);
                if k == 0 {
                    (s, Err(QueueError::Empty))
                } else {
                    (drain_front(s, k), Ok(s.items.take(k)))
                }
            },
            WindowKind::Sliding(sw) => {
                let present = sliding_present(s.items, p, sw.size as int);
                let stride = if sw.stride <= n { sw.stride as int } else { n };
                if present == 0 {
                    (s, Err(QueueError::Empty))
                } else {
                    (drain_front(s, stride), Ok(s.items.take(present)))
                }
            },
        }
    }
}

impl<T> HeapRing<T> {
    /// A new, empty ring that holds at most `cap` items.
    pub fn with_capacity(cap: usize) -> (r: Self)
        ensures
            r@ == (QueueState { items: Seq::<T>::empty(), bytes: 0usize, capacity: cap }),
    {
        HeapRing { buf: VecDeque::with_capacity(cap), cap, bytes: 0 }
    }

    fn len(&self) -> (n: usize)
        ensures
            n == self@.items.len(),
    {
        self.buf.len()
    }

    fn is_full(&self) -> (b: bool)
        ensures
            b == (self@.items.len() >= self@.capacity),
    {
        self.len() >= self.cap
    }
}

impl<P: Payload + Clone> HeapRing<Message<P>> {
    /// Number of leading messages created within `cap` ticks of the front one.
    fn count_within_delta(&self, cap: Ticks) -> (c: usize)
        requires
            self@.items.len() > 0,
        ensures
            c == delta_count(self@.items, cap),
    {
        let len = self.buf.len();
        let front = self.buf[0].header.creation_tick;
        let mut c: usize = 0;
        proof {
            lemma_run_within_bounds(self@.items, front, cap, 0);
        }
        while c < len
            invariant
                len == self@.items.len(),
                front == self@.items[0].header.creation_tick,
                0 <= c <= len,
                run_within(self@.items, front, cap, c as int) == run_within(self@.items, front, cap, 0),
            decreases len - c,
        {
            let delta = self.buf[c].header.creation_tick.saturating_sub(front);
            if delta.0 <= cap.0 {
                c = c + 1;
            } else {
                return c;
            }
        }
        c
    }

    /// Pop the first `k` messages into `out`, lowering the byte counter by their sizes.
    fn drain_into(&mut self, k: usize, out: &mut Vec<Message<P>>)
        requires
            k <= old(self)@.items.len(),
        ensures
            final(self)@ == drain_front(old(self)@, k as int),
            final(out)@ == old(out)@ + old(self)@.items.take(k as int),
    {
        let ghost s0 = self@;
        let mut popped: usize = 0;
        let mut i: usize = 0;
        while i < k
            invariant
                k <= s0.items.len(),
                0 <= i <= k,
                self.cap == s0.capacity,
                self.bytes == s0.bytes,
                self.buf@ == s0.items.skip(i as int),
                out@ == old(out)@ + s0.items.take(i as int),
                popped == (if total_bytes(s0.items.take(i as int)) <= usize::MAX {
                    total_bytes(s0.items.take(i as int))
                } else {
                    usize::MAX as int
                }),
            decreases k - i,
        {
            let item = self.buf.pop_front().unwrap();
            proof {
                assert(s0.items.take(i + 1).drop_last() =~= s0.items.take(i as int));
                assert(s0.items.take(i + 1).last() == item);
                lemma_total_bytes_nonneg(s0.items.take(i as int));
                assert(s0.items.skip(i + 1) =~= s0.items.skip(i as int).subrange(1, s0.items.skip(i as int).len() as int));
                assert(old(out)@ + s0.items.take(i + 1) =~= (old(out)@ + s0.items.take(i as int)).push(item));
            }
            popped = popped.saturating_add(item.header.payload_size_bytes);
            out.push(item);
            i = i + 1;
        }
        proof {
            lemma_total_bytes_nonneg(s0.items.take(k as int));
            assert(s0.items.take(k as int).len() == k);
        }
        self.bytes = self.bytes.saturating_sub(popped);
    }
}

impl<P: Payload + Clone> Edge<P> for HeapRing<Message<P>> {
    type Model = QueueState<Message<P>>;

    open spec fn model(&self) -> QueueState<Message<P>> {
        self@
    }

    open spec fn well_formed(&self) -> bool {
        self@.items.len() <= self@.capacity
    }

    open spec fn push_model(m: QueueState<Message<P>>, item: Message<P>, policy: EdgePolicy) -> (QueueState<Message<P>>, EnqueueResult) {
        bounded_push(m, item, policy)
    }

    open spec fn pop_model(m: QueueState<Message<P>>) -> (QueueState<Message<P>>, Result<Message<P>, QueueError>) {
        front_pop(m)
    }

    open spec fn occupancy_defined(m: QueueState<Message<P>>) -> bool {
        true
    }

    open spec fn occupancy_model(m: QueueState<Message<P>>, policy: EdgePolicy) -> EdgeOccupancy {
        queue_occupancy(m, policy)
    }

    open spec fn peek_model(m: QueueState<Message<P>>, index: int) -> Result<Message<P>, QueueError> {
        peek_index(m, index)
    }

    open spec fn batch_model(m: QueueState<Message<P>>, policy: BatchingPolicy) -> (QueueState<Message<P>>, Result<Seq<Message<P>>, QueueError>) {
        heap_batch(m, policy)
    }

    fn try_push(&mut self, item: Message<P>, policy: &EdgePolicy) -> (r: EnqueueResult) {
        let items = self.len();
        let bytes = self.bytes;

        if policy.caps.at_or_above_hard(items, bytes) && self.is_full() {
            return EnqueueResult::Rejected;
        }

        match policy.watermark(items, bytes) {
            WatermarkState::BetweenSoftAndHard => {
                if policy.admission == AdmissionPolicy::DropOldest && self.buf.len() > 0 {
                    proof {
                        lemma_drain_one(self@);
                    }
                    if let Some(ev) = self.buf.pop_front() {
                        self.bytes = self.bytes.saturating_sub(ev.header.payload_size_bytes);
                    }
                }
            },
            _ => {},
        }

        if self.is_full() {
            return EnqueueResult::Rejected;
        }

        self.bytes = self.bytes.saturating_add(item.header.payload_size_bytes);
        self.buf.push_back(item);
        EnqueueResult::Enqueued
    }

    fn try_pop(&mut self) -> (r: Result<Message<P>, QueueError>) {
        proof {
            if self@.items.len() > 0 {
                lemma_drain_one(self@);
            }
        }
        match self.buf.pop_front() {
            Some(item) => {
                self.bytes = self.bytes.saturating_sub(item.header.payload_size_bytes);
                Ok(item)
            },
            None => Err(QueueError::Empty),
        }
    }

    fn occupancy(&self, policy: &EdgePolicy) -> (o: EdgeOccupancy) {
        let items = self.len();
        let bytes = self.bytes;
        let watermark = policy.watermark(items, bytes);
        EdgeOccupancy { items, bytes, watermark }
    }

    fn try_peek(&self) -> (r: Result<PeekResponse<'_, Message<P>>, QueueError>) {
        if self.buf.len() > 0 {
            Ok(PeekResponse::Borrowed(&self.buf[0]))
        } else {
            Err(QueueError::Empty)
        }
    }

    fn try_peek_at(&self, index: usize) -> (r: Result<PeekResponse<'_, Message<P>>, QueueError>) {
        if index < self.buf.len() {
            Ok(PeekResponse::Borrowed(&self.buf[index]))
        } else {
            Err(QueueError::Empty)
        }
    }

    fn try_pop_batch(&mut self, policy: &BatchingPolicy) -> (r: Result<BatchView<'_, P>, QueueError>) {
        let ghost s0 = self@;
        let len = self.len();
        if len == 0 {
            return Err(QueueError::Empty);
        }

        let delta_t_opt = policy.max_delta_t;
        let window_kind = policy.window_kind();
        let effective_fixed = policy.effective_fixed();

        let mut delta_count = len;
        if let Some(cap) = delta_t_opt {
            delta_count = self.count_within_delta(cap);
        }
        proof {
            lemma_batch_sizes(s0.items, *policy, 0);
            if let WindowKind::Sliding(sw) = window_kind {
                lemma_batch_sizes(s0.items, *policy, sw.size as int);
            }
        }

        match window_kind {
            WindowKind::Disjoint => {
                let take_n = apply_fixed(effective_fixed, min_usize(len, delta_count));
                if take_n == 0 {
                    return Err(QueueError::Empty);
                }
                let mut out: Vec<Message<P>> = Vec::with_capacity(take_n);
                self.drain_into(take_n, &mut out);
                proof {
                    assert(out@ =~= s0.items.take(take_n as int));
                }
                Ok(BatchView::from_owned(out))
            },
            WindowKind::Sliding(sw) => {
                let stride = sw.stride;
                let size = sw.size;
                let present_n = apply_fixed(effective_fixed, min_usize(min_usize(len, size), delta_count));
                if present_n == 0 {
                    return Err(QueueError::Empty);
                }
                let mut out: Vec<Message<P>> = Vec::with_capacity(present_n);
                let mut i: usize = 0;
                while i < present_n
                    invariant
                        present_n <= len == s0.items.len(),
                        self@ == s0,
                        0 <= i <= present_n,
                        out@.len() == i,
                        forall|j: int| 0 <= j < i ==> copy_of(s0.items[j], #[trigger] out@[j]),
                    decreases present_n - i,
                {
                    let c = self.buf[i].clone();
                    out.push(c);
                    i = i + 1;
                }
                let stride_to_pop = min_usize(stride, len);
                let mut dropped: Vec<Message<P>> = Vec::new();
                self.drain_into(stride_to_pop, &mut dropped);
                proof {
                    let want = s0.items.take(present_n as int);
                    assert(want.len() == out@.len());
                    assert forall|j: int| 0 <= j < want.len() implies copy_of(#[trigger] want[j], out@[j]) by {
                        assert(want[j] == s0.items[j]);
                    }
                }
                Ok(BatchView::from_owned(out))
            },
        }
    }
}

} // verus!
