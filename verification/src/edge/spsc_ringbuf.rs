//! SPSC ring with a power-of-two physical capacity and a configured logical capacity.
//!
//! The physical ring is rounded up to the next power of two (as the lock-free
//! ring buffers it mirrors require); the queue refuses items once it holds its
//! configured capacity or the physical ring is full.

use std::collections::VecDeque;
use vstd::prelude::*;
use vstd::arithmetic::power2::is_pow2;
use crate::batch::BatchView;
use crate::edge::queue_state::{bounded_push, delta_count, disjoint_take, drain_front, front_pop, lemma_batch_sizes, lemma_drain_one, lemma_drain_step, lemma_run_within_bounds, peek_index, queue_occupancy, run_within, sliding_present, QueueState};
use crate::edge::{Edge, EdgeOccupancy, EnqueueResult, PeekResponse};
use crate::errors::QueueError;
use crate::message::{copy_of, Message, Payload};
use crate::policy::{apply_fixed, min_usize, AdmissionPolicy, BatchingPolicy, EdgePolicy, WatermarkState, WindowKind};
use crate::types::Ticks;

verus! {

/// The smallest power of two that is at least `n` (one for zero).
pub fn next_power_of_two(n: usize) -> (p: usize)
    requires
        n <= usize::MAX / 2 + 1,
    ensures
        is_pow2(p as int),
        p >= n,
        p == 1 || p / 2 < n,
{
    reveal(is_pow2);
    let mut p: usize = 1;
    while p < n
        invariant
            n <= usize::MAX / 2 + 1,
            is_pow2(p as int),
            1 <= p,
            p == 1 || p / 2 < n,
        decreases usize::MAX - p,
    {
        assert((2 * p) / 2 == p);
        assert(is_pow2(2 * p as int)) by {
            reveal(is_pow2);
            assert((2 * p) % 2 == 0);
        }
        p = 2 * p;
    }
    p
}

/// A bounded SPSC queue over a power-of-two physical ring, with a byte counter.
pub struct SpscRingbuf<T> {
    buf: VecDeque<T>,
    ring_cap: usize,
    cap: usize,
    bytes: usize,
}

impl<T> View for SpscRingbuf<T> {
    type V = QueueState<T>;

    closed spec fn view(&self) -> QueueState<T> {
        QueueState { items: self.buf@, bytes: self.bytes, capacity: self.cap }
    }
}

impl<T> SpscRingbuf<T> {
    /// Size of the physical ring.
    pub closed spec fn ring_capacity(&self) -> int {
        self.ring_cap as int
    }

    /// The physical ring is at least the configured capacity.
    pub closed spec fn ring_wf(&self) -> bool {
        &&& self.cap <= self.ring_cap
        &&& self.buf@.len() <= self.cap
    }

    /// A new, empty queue holding at most `capacity` items; the physical ring is
    /// `capacity` rounded up to a power of two.
    pub fn with_capacity(capacity: usize) -> (r: Self)
        requires
            capacity <= usize::MAX / 2 + 1,
        ensures
            r@ == (QueueState { items: Seq::<T>::empty(), bytes: 0usize, capacity }),
            r.ring_wf(),
            is_pow2(r.ring_capacity()),
            r.ring_capacity() >= capacity,
            r.ring_capacity() == 1 || r.ring_capacity() / 2 < capacity,
    {
        let ring_cap = next_power_of_two(capacity);
        SpscRingbuf { buf: VecDeque::with_capacity(ring_cap), ring_cap, cap: capacity, bytes: 0 }
    }

    fn len_internal(&self) -> (n: usize)
        ensures
            n == self@.items.len(),
    {
        self.buf.len()
    }

    /// Full at the configured capacity or when the physical ring is full.
    fn is_full(&self) -> (b: bool)
        requires
            self.ring_wf(),
        ensures
            b == (self@.items.len() >= self@.capacity),
    {
        self.len_internal() >= self.cap || self.buf.len() >= self.ring_cap
    }
}

/// Batch pop of the ring. Disjoint windows pop up to the batch size; sliding
/// windows present (as clones) up to `size` messages and then pop `stride`.
pub open spec fn ring_batch<P>(s: QueueState<Message<P>>, p: BatchingPolicy) -> (QueueState<Message<P>>, Result<Seq<Message<P>>, QueueError>) {
    let n = s.items.len() as int;
    if n == 0 {
        (s, Err(QueueError::Empty))
    } else {
        match p.window_kind {
            WindowKind::Disjoint => {
                let k = disjoint_take(s.items, p);
                if k == 0 {
                    (s, Err(QueueError::Empty))
                } else {
                    (drain_front(s, k), Ok(s.items.take(k)))
                }
            },
            WindowKind::Sliding(sw) => {
                let present = sliding_present(s.items, p, sw.size as int);
                let stride = if sw.stride <= n { sw.stride as int } else { n };
                if present == 0 {
                    (s, Err(QueueError::Empty))
                } else {
                    (drain_front(s, stride), Ok(s.items.take(present)))
                }
            },
        }
    }
}

impl<P: Payload + Clone> SpscRingbuf<Message<P>> {
    /// Number of leading messages created within `cap` ticks of the front one.
    fn count_within_delta(&self, cap: Ticks) -> (c: usize)
        requires
            self@.items.len() > 0,
        ensures
            c == delta_count(self@.items, cap),
    {
        let available = self.buf.len();
        let front = self.buf[0].header.creation_tick;
        let mut c: usize = 0;
        proof {
            lemma_run_within_bounds(self@.items, front, cap, 0);
        }
        while c < available
            invariant
                available == self@.items.len(),
                front == self@.items[0].header.creation_tick,
                0 <= c <= available,
                run_within(self@.items, front, cap, c as int) == run_within(self@.items, front, cap, 0),
            decreases available - c,
        {
            let delta = self.buf[c].header.creation_tick.saturating_sub(front);
            if delta.0 <= cap.0 {
                c = c + 1;
            } else {
                return c;
            }
        }
        c
    }

    /// Pop `k` messages one by one, lowering the byte counter after each, and
    /// collect them when `keep` is set.
    fn pop_n(&mut self, k: usize, keep: bool, out: &mut Vec<Message<P>>)
        requires
            k <= old(self)@.items.len(),
            old(self).ring_wf(),
        ensures
            final(self).ring_wf(),
            final(self).ring_capacity() == old(self).ring_capacity(),
            final(self)@ == drain_front(old(self)@, k as int),
            keep ==> final(out)@ == old(out)@ + old(self)@.items.take(k as int),
            !keep ==> final(out)@ == old(out)@,
    {
        let ghost s0 = self@;
        let mut i: usize = 0;
        assert(s0.items.skip(0) =~= s0.items);
        assert(s0.items.take(0) =~= Seq::<Message<P>>::empty());
        while i < k
            invariant
                k <= s0.items.len(),
                0 <= i <= k,
                self.cap <= self.ring_cap,
                self.ring_cap == old(self).ring_cap,
                self@ == drain_front(s0, i as int),
                keep ==> out@ == old(out)@ + s0.items.take(i as int),
                !keep ==> out@ == old(out)@,
            decreases k - i,
        {
            proof {
                lemma_drain_step(s0, i as int);
                lemma_drain_one(self@);
            }
            let item = self.buf.pop_front().unwrap();
            self.bytes = self.bytes.saturating_sub(item.header.payload_size_bytes);
            proof {
                assert(self.buf@ =~= self@.items);
                assert(s0.items.take(i + 1) =~= s0.items.take(i as int).push(item));
            }
            if keep {
                out.push(item);
                proof {
                    assert(old(out)@ + s0.items.take(i + 1) =~= (old(out)@ + s0.items.take(i as int)).push(item));
                }
            }
            i = i + 1;
        }
    }
}

impl<P: Payload + Clone> Edge<P> for SpscRingbuf<Message<P>> {
    type Model = QueueState<Message<P>>;

    open spec fn model(&self) -> QueueState<Message<P>> {
        self@
    }

    open spec fn well_formed(&self) -> bool {
        self.ring_wf()
    }

    open spec fn push_model(m: QueueState<Message<P>>, item: Message<P>, policy: EdgePolicy) -> (QueueState<Message<P>>, EnqueueResult) {
        bounded_push(m, item, policy)
    }

    open spec fn pop_model(m: QueueState<Message<P>>) -> (QueueState<Message<P>>, Result<Message<P>, QueueError>) {
        front_pop(m)
    }

    open spec fn occupancy_defined(m: QueueState<Message<P>>) -> bool {
        true
    }

    open spec fn occupancy_model(m: QueueState<Message<P>>, policy: EdgePolicy) -> EdgeOccupancy {
        queue_occupancy(m, policy)
    }

    open spec fn peek_model(m: QueueState<Message<P>>, index: int) -> Result<Message<P>, QueueError> {
        peek_index(m, index)
    }

    open spec fn batch_model(m: QueueState<Message<P>>, policy: BatchingPolicy) -> (QueueState<Message<P>>, Result<Seq<Message<P>>, QueueError>) {
        ring_batch(m, policy)
    }

    fn try_push(&mut self, item: Message<P>, policy: &EdgePolicy) -> (r: EnqueueResult) {
        let items = self.len_internal();
        let bytes = self.bytes;

        if policy.caps.at_or_above_hard(items, bytes) && self.is_full() {
            return EnqueueResult::Rejected;
        }

        match policy.watermark(items, bytes) {
            WatermarkState::BetweenSoftAndHard => {
                if policy.admission == AdmissionPolicy::DropOldest && self.len_internal() > 0 {
                    proof {
                        lemma_drain_one(self@);
                    }
                    if let Some(ev) = self.buf.pop_front() {
                        self.bytes = self.bytes.saturating_sub(ev.header.payload_size_bytes);
                    }
                }
            },
            _ => {},
        }

        if self.is_full() {
            return EnqueueResult::Rejected;
        }

        let payload_bytes = item.header.payload_size_bytes;
        self.buf.push_back(item);
        self.bytes = self.bytes.saturating_add(payload_bytes);
        EnqueueResult::Enqueued
    }

    fn try_pop(&mut self) -> (r: Result<Message<P>, QueueError>) {
        proof {
            if self@.items.len() > 0 {
                lemma_drain_one(self@);
            }
        }
        match self.buf.pop_front() {
            Some(item) => {
                self.bytes = self.bytes.saturating_sub(item.header.payload_size_bytes);
                Ok(item)
            },
            None => Err(QueueError::Empty),
        }
    }

    fn occupancy(&self, policy: &EdgePolicy) -> (o: EdgeOccupancy) {
        let items = self.len_internal();
        let bytes = self.bytes;
        let watermark = policy.watermark(items, bytes);
        EdgeOccupancy { items, bytes, watermark }
    }

    fn try_peek(&self) -> (r: Result<PeekResponse<'_, Message<P>>, QueueError>) {
        if self.buf.len() > 0 {
            Ok(PeekResponse::Borrowed(&self.buf[0]))
        } else {
            Err(QueueError::Empty)
        }
    }

    fn try_peek_at(&self, index: usize) -> (r: Result<PeekResponse<'_, Message<P>>, QueueError>) {
        if index < self.buf.len() {
            Ok(PeekResponse::Borrowed(&self.buf[index]))
        } else {
            Err(QueueError::Empty)
        }
    }

    fn try_pop_batch(&mut self, policy: &BatchingPolicy) -> (r: Result<BatchView<'_, P>, QueueError>) {
        let ghost s0 = self@;
        let available = self.len_internal();
        if available == 0 {
            return Err(QueueError::Empty);
        }

        let delta_t_opt = policy.max_delta_t;
        let window_kind = policy.window_kind();
        let effective_fixed = policy.effective_fixed();

        let mut delta_count = available;
        if let Some(cap) = delta_t_opt {
            delta_count = self.count_within_delta(cap);
        }
        proof {
            lemma_batch_sizes(s0.items, *policy, 0);
            if let WindowKind::Sliding(sw) = window_kind {
                lemma_batch_sizes(s0.items, *policy, sw.size as int);
            }
        }

        match window_kind {
            WindowKind::Disjoint => {
                let take_n = apply_fixed(effective_fixed, min_usize(available, delta_count));
                if take_n == 0 {
                    return Err(QueueError::Empty);
                }
                let mut out: Vec<Message<P>> = Vec::with_capacity(take_n);
                self.pop_n(take_n, true, &mut out);
                if out.len() == 0 {
                    return Err(QueueError::Empty);
                }
                proof {
                    assert(out@ =~= s0.items.take(take_n as int));
                }
                Ok(BatchView::from_owned(out))
            },
            WindowKind::Sliding(sw) => {
                let stride = sw.stride;
                let size = sw.size;
                let present_n = apply_fixed(effective_fixed, min_usize(min_usize(available, size), delta_count));
                if present_n == 0 {
                    return Err(QueueError::Empty);
                }
                let mut out: Vec<Message<P>> = Vec::with_capacity(present_n);
                let mut i: usize = 0;
                while i < present_n
                    invariant
                        present_n <= available == s0.items.len(),
                        self@ == s0,
                        0 <= i <= present_n,
                        out@.len() == i,
                        forall|j: int| 0 <= j < i ==> copy_of(s0.items[j], #[trigger] out@[j]),
                    decreases present_n - i,
                {
                    let c = self.buf[i].clone();
                    out.push(c);
                    i = i + 1;
                }
                let stride_to_pop = min_usize(stride, available);
                let mut dropped: Vec<Message<P>> = Vec::new();
                self.pop_n(stride_to_pop, false, &mut dropped);
                proof {
                    let want = s0.items.take(present_n as int);
                    assert(want.len() == out@.len());
                    assert forall|j: int| 0 <= j < want.len() implies copy_of(#[trigger] want[j], out@[j]) by {
                        assert(want[j] == s0.items[j]);
                    }
                }
                Ok(BatchView::from_owned(out))
            },
        }
    }
}

} // verus!
