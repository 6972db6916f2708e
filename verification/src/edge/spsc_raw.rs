//! High-performance SPSC ring: a power-of-two array of slots indexed through a
//! bit mask, with the classic one-empty-slot scheme (a ring of `cap` slots holds
//! at most `cap - 1` items) and a byte counter with wrapping updates.

use vstd::prelude::*;
use vstd::arithmetic::power2::{is_pow2, pow2, lemma_pow2, lemma_pow2_strictly_increases, lemma2_to64};
use vstd::arithmetic::power::pow;
use vstd::bits::{low_bits_mask, lemma_usize_low_bits_mask_is_mod};
use vstd::arithmetic::div_mod::{lemma_small_mod, lemma_mod_add_multiples_vanish};
use crate::batch::BatchView;
use crate::edge::queue_state::{delta_count, disjoint_take, lemma_batch_sizes, lemma_run_within_bounds, peek_index, queue_occupancy, run_within, sliding_present, QueueState};
use crate::edge::{Edge, EdgeOccupancy, EnqueueResult, PeekResponse};
use crate::errors::QueueError;
use crate::message::{copy_of, lemma_total_bytes_nonneg, lemma_total_bytes_split, total_bytes, Message, Payload};
use crate::policy::{apply_fixed, decision_of, min_usize, AdmissionDecision, BatchingPolicy, EdgePolicy, QueueCaps, WindowKind};
use crate::types::Ticks;

verus! {

/// A power of two that fits a `usize` is at most half of `usize::MAX + 1`.
pub proof fn lemma_pow2_fits_half(cap: usize)
    requires
        is_pow2(cap as int),
    ensures
        2 * cap <= usize::MAX + 1,
{
    vstd::arithmetic::power2::is_pow2_equiv(cap as int);
    let i = choose|i: nat| pow(2, i) == cap as int;
    lemma_pow2(i);
    lemma2_to64();
    if i >= usize::BITS {
        if i > usize::BITS {
            lemma_pow2_strictly_increases(usize::BITS as nat, i);
        }
        assert(false);
    }
    vstd::arithmetic::power2::lemma_pow2_unfold(i + 1);
    if i + 1 < usize::BITS {
        lemma_pow2_strictly_increases(i + 1, usize::BITS as nat);
    }
}

/// For a power-of-two `cap`, masking with `cap - 1` wraps any `x < 2 * cap` into `[0, cap)`.
pub proof fn lemma_mask_wraps(cap: usize, x: usize)
    requires
        is_pow2(cap as int),
        x < 2 * cap,
    ensures
        x & ((cap - 1) as usize) == (if x < cap { x } else { (x - cap) as usize }),
{
    vstd::arithmetic::power2::is_pow2_equiv(cap as int);
    let i = choose|i: nat| pow(2, i) == cap as int;
    lemma_pow2(i);
    assert(pow2(i) == cap);
    lemma2_to64();
    if i >= usize::BITS {
        if i > usize::BITS {
            lemma_pow2_strictly_increases(usize::BITS as nat, i);
        }
        assert(false);
    }
    lemma_usize_low_bits_mask_is_mod(x, i);
    assert(low_bits_mask(i) == cap - 1);
    if x < cap {
        lemma_small_mod(x as nat, cap as nat);
    } else {
        lemma_mod_add_multiples_vanish((x - cap) as int, cap as int);
        lemma_small_mod((x - cap) as nat, cap as nat);
    }
}


/// A bounded SPSC ring of `cap` slots (a power of two) holding at most `cap - 1` items.
pub struct SpscAtomicRing<T> {
    buf: Vec<Option<T>>,
    cap: usize,
    head: usize,
    tail: usize,
    bytes_in_queue: usize,
}

impl<T> SpscAtomicRing<T> {
    /// Number of live items.
    pub closed spec fn ring_len(&self) -> int {
        if self.tail >= self.head {
            self.tail - self.head
        } else {
            self.tail + self.cap - self.head
        }
    }

    /// Slot of the item `j` places behind the front.
    pub closed spec fn slot(&self, j: int) -> int {
        if self.head + j < self.cap {
            self.head + j
        } else {
            self.head + j - self.cap
        }
    }

    /// The slot count is a power of two whose double fits a `usize`.
    pub closed spec fn mask_ok(&self) -> bool {
        &&& is_pow2(self.cap as int)
        &&& 2 * self.cap <= usize::MAX + 1
    }

    /// The slots are a power-of-two array, the indices lie inside it, and every
    /// live slot holds an item.
    pub closed spec fn ring_wf(&self) -> bool {
        &&& self.mask_ok()
        &&& self.buf@.len() == self.cap
        &&& self.head < self.cap
        &&& self.tail < self.cap
        &&& forall|j: int| 0 <= j < self.ring_len() ==> (#[trigger] self.buf@[self.slot(j)]) is Some
    }

    /// Number of slots.
    pub closed spec fn slots(&self) -> int {
        self.cap as int
    }

    /// The slot layout alone decides well-formedness and the queued items.
    proof fn lemma_same_slots(a: &Self, b: &Self)
        requires
            a.ring_wf(),
            a.buf@ == b.buf@,
            a.cap == b.cap,
            a.head == b.head,
            a.tail == b.tail,
        ensures
            b.ring_wf(),
            b.slots() == a.slots(),
            b@.items == a@.items,
            b@.capacity == a@.capacity,
    {
        assert forall|j: int| 0 <= j < b.ring_len() implies (#[trigger] b.buf@[b.slot(j)]) is Some by {
            assert(b.slot(j) == a.slot(j));
            assert(a.buf@[a.slot(j)] is Some);
        }
        assert(b@.items =~= a@.items);
    }
}

impl<T> View for SpscAtomicRing<T> {
    type V = QueueState<T>;

    closed spec fn view(&self) -> QueueState<T> {
        QueueState {
            items: Seq::new(self.ring_len() as nat, |j: int| self.buf@[self.slot(j)]->Some_0),
            bytes: self.bytes_in_queue,
            capacity: (self.cap - 1) as usize,
        }
    }
}

impl<T> SpscAtomicRing<T> {
    /// A new, empty ring of `capacity` slots; `capacity` must be a power of two.
    pub fn with_capacity(capacity: usize) -> (r: Self)
        requires
            is_pow2(capacity as int),
        ensures
            r.ring_wf(),
            r.slots() == capacity,
            r@.items.len() == 0,
            r@.bytes == 0,
            r@.capacity == capacity - 1,
    {
        proof {
            reveal(is_pow2);
            lemma_pow2_fits_half(capacity);
        }
        let mut v: Vec<Option<T>> = Vec::with_capacity(capacity);
        while v.len() < capacity
            invariant
                v@.len() <= capacity,
            decreases capacity - v@.len(),
        {
            v.push(None);
        }
        SpscAtomicRing { buf: v, cap: capacity, head: 0, tail: 0, bytes_in_queue: 0 }
    }

    fn mask(&self) -> (m: usize)
        requires
            self.mask_ok(),
        ensures
            m == self.cap - 1,
    {
        proof {
            reveal(is_pow2);
        }
        self.cap - 1
    }

    /// `x` wrapped into the slot range through the mask.
    fn wrap(&self, x: usize) -> (r: usize)
        requires
            self.mask_ok(),
            x < 2 * self.cap,
        ensures
            r == (if x < self.cap { x } else { (x - self.cap) as usize }),
    {
        proof {
            lemma_mask_wraps(self.cap, x);
        }
        x & self.mask()
    }

    fn len(&self) -> (n: usize)
        requires
            self.ring_wf(),
        ensures
            n == self.ring_len(),
            n == self@.items.len(),
    {
        self.wrap(self.tail + self.cap - self.head)
    }

    fn is_full(&self) -> (b: bool)
        requires
            self.ring_wf(),
        ensures
            b == (self@.items.len() >= self@.capacity),
    {
        proof {
            reveal(is_pow2);
        }
        self.len() == self.cap - 1
    }

    /// Write `item` into the slot after the last live one.
    fn push_raw(&mut self, item: T)
        requires
            old(self).ring_wf(),
            old(self)@.items.len() < old(self)@.capacity,
        ensures
            final(self).ring_wf(),
            final(self).slots() == old(self).slots(),
            final(self)@.items == old(self)@.items.push(item),
            final(self)@.bytes == old(self)@.bytes,
            final(self)@.capacity == old(self)@.capacity,
    {
        let ghost old_self = *self;
        let t = self.tail;
        let idx = self.wrap(t);
        self.buf.set(idx, Some(item));
        self.tail = self.wrap(t + 1);
        proof {
            reveal(is_pow2);
            assert(self.ring_len() == old_self.ring_len() + 1);
            assert(old_self.slot(old_self.ring_len()) == t);
            assert forall|j: int| 0 <= j < self.ring_len() implies (#[trigger] self.buf@[self.slot(j)]) is Some by {
                assert(self.slot(j) == old_self.slot(j));
                if j < old_self.ring_len() {
                    assert(old_self.buf@[old_self.slot(j)] is Some);
                }
            }
            assert(self@.items =~= old_self@.items.push(item));
        }
    }

    /// Take the front item out of its slot.
    fn pop_raw(&mut self) -> (item: T)
        requires
            old(self).ring_wf(),
            old(self)@.items.len() > 0,
        ensures
            final(self).ring_wf(),
            final(self).slots() == old(self).slots(),
            item == old(self)@.items[0],
            final(self)@.items == old(self)@.items.drop_first(),
            final(self)@.bytes == old(self)@.bytes,
            final(self)@.capacity == old(self)@.capacity,
    {
        let ghost old_self = *self;
        let h = self.head;
        let idx = self.wrap(h);
        proof {
            assert(old_self.slot(0) == h);
            assert(old_self.buf@[old_self.slot(0)] is Some);
        }
        let mut slot: Option<T> = None;
        self.buf.set_and_swap(idx, &mut slot);
        let item = slot.unwrap();
        self.head = self.wrap(h + 1);
        proof {
            assert(self.ring_len() == old_self.ring_len() - 1);
            assert forall|j: int| 0 <= j < self.ring_len() implies (#[trigger] self.buf@[self.slot(j)]) is Some by {
                assert(self.slot(j) == old_self.slot(j + 1));
                assert(old_self.buf@[old_self.slot(j + 1)] is Some);
            }
            assert(self@.items =~= old_self@.items.drop_first());
        }
        item
    }

    /// The item `offset` places behind the front, without advancing.
    fn peek_ref_at_offset(&self, offset: usize) -> (r: &T)
        requires
            self.ring_wf(),
            offset < self@.items.len(),
        ensures
            *r == self@.items[offset as int],
    {
        let idx = self.wrap(self.head + offset);
        proof {
            assert(idx == self.slot(offset as int));
            assert(self.buf@[self.slot(offset as int)] is Some);
        }
        self.buf[idx].as_ref().unwrap()
    }
}


/// Remove the front message; the byte counter drops by its size, wrapping.
pub open spec fn wrap_drain_one<P>(s: QueueState<Message<P>>) -> QueueState<Message<P>> {
    QueueState {
        items: s.items.drop_first(),
        bytes: s.bytes.wrapping_sub(s.items[0].header.payload_size_bytes),
        capacity: s.capacity,
    }
}

/// Remove up to `k` front messages one at a time (stopping when empty).
pub open spec fn wrap_drain<P>(s: QueueState<Message<P>>, k: nat) -> QueueState<Message<P>>
    decreases k,
{
    if k == 0 || s.items.len() == 0 {
        s
    } else {
        wrap_drain(wrap_drain_one(s), (k - 1) as nat)
    }
}

/// Append a message; the byte counter grows by its size, wrapping.
pub open spec fn wrap_push<P>(s: QueueState<Message<P>>, item: Message<P>) -> QueueState<Message<P>> {
    QueueState {
        items: s.items.push(item),
        bytes: s.bytes.wrapping_add(item.header.payload_size_bytes),
        capacity: s.capacity,
    }
}

/// Evict front messages while the queue is at or above the hard cap and not empty.
pub open spec fn evict_below_hard<P>(s: QueueState<Message<P>>, caps: QueueCaps) -> QueueState<Message<P>>
    decreases s.items.len(),
{
    if caps.hard_reached(s.items.len() as int, s.bytes as int) && s.items.len() > 0 {
        evict_below_hard(wrap_drain_one(s), caps)
    } else {
        s
    }
}

/// Enqueue unless the ring is full or at the hard cap.
pub open spec fn checked_admit<P>(s: QueueState<Message<P>>, item: Message<P>, policy: EdgePolicy) -> (QueueState<Message<P>>, EnqueueResult) {
    if s.items.len() >= s.capacity || policy.caps.hard_reached(s.items.len() as int, s.bytes as int) {
        (s, EnqueueResult::Rejected)
    } else {
        (wrap_push(s, item), EnqueueResult::Enqueued)
    }
}

/// Push into the ring following the policy's admission decision for the item.
pub open spec fn atomic_push<P>(s: QueueState<Message<P>>, item: Message<P>, policy: EdgePolicy) -> (QueueState<Message<P>>, EnqueueResult) {
    match decision_of(policy, s.items.len() as int, s.bytes as int, item.header.qos) {
        AdmissionDecision::Admit => checked_admit(s, item, policy),
        AdmissionDecision::DropNewest => (s, EnqueueResult::DroppedNewest),
        AdmissionDecision::Reject => (s, EnqueueResult::Rejected),
        AdmissionDecision::Block => (s, EnqueueResult::Rejected),
        AdmissionDecision::Evict(n) => checked_admit(wrap_drain(s, n as nat), item, policy),
        AdmissionDecision::EvictUntilBelowHard => {
            let s1 = evict_below_hard(s, policy.caps);
            if policy.caps.hard_reached(0, item.header.payload_size_bytes as int) {
                (s1, EnqueueResult::Rejected)
            } else {
                checked_admit(s1, item, policy)
            }
        },
    }
}

/// Pop the front message of the ring.
pub open spec fn atomic_pop<P>(s: QueueState<Message<P>>) -> (QueueState<Message<P>>, Result<Message<P>, QueueError>) {
    if s.items.len() == 0 {
        (s, Err(QueueError::Empty))
    } else {
        (wrap_drain_one(s), Ok(s.items[0]))
    }
}

/// Batch pop of the ring. Disjoint windows pop up to the batch size; sliding
/// windows present (as clones) up to `size` messages and then pop `stride`.
pub open spec fn atomic_batch<P>(s: QueueState<Message<P>>, p: BatchingPolicy) -> (QueueState<Message<P>>, Result<Seq<Message<P>>, QueueError>) {
    let n = s.items.len() as int;
    if n == 0 {
        (s, Err(QueueError::Empty))
    } else {
        match p.window_kind {
            WindowKind::Disjoint => {
                let k = disjoint_take(s.items, p);
                if k == 0 {
                    (s, Err(QueueError::Empty))
                } else {
                    (wrap_drain(s, k as nat), Ok(s.items.take(k)))
                }
            },
            WindowKind::Sliding(sw) => {
                let present = sliding_present(s.items, p, sw.size as int);
                let stride = if sw.stride <= n { sw.stride as int } else { n };
                if present == 0 {
                    (s, Err(QueueError::Empty))
                } else {
                    (wrap_drain(s, stride as nat), Ok(s.items.take(present)))
                }
            },
        }
    }
}

/// Draining `a + b` messages is draining `a`, then `b`.
pub proof fn lemma_wrap_drain_split<P>(s: QueueState<Message<P>>, a: nat, b: nat)
    ensures
        wrap_drain(s, a + b) == wrap_drain(wrap_drain(s, a), b),
    decreases a,
{
    if a == 0 {
    } else if s.items.len() == 0 {
        lemma_wrap_drain_empty(s, b);
        lemma_wrap_drain_empty(s, a + b);
    } else {
        lemma_wrap_drain_split(wrap_drain_one(s), (a - 1) as nat, b);
        assert((a + b - 1) as nat == (a - 1) as nat + b);
    }
}

/// Draining one message from a non-empty queue is `wrap_drain_one`.
pub proof fn lemma_wrap_drain_single<P>(s: QueueState<Message<P>>)
    requires
        s.items.len() > 0,
    ensures
        wrap_drain(s, 1) == wrap_drain_one(s),
{
    assert(wrap_drain(wrap_drain_one(s), 0) == wrap_drain_one(s));
}

/// Draining an empty queue changes nothing.
pub proof fn lemma_wrap_drain_empty<P>(s: QueueState<Message<P>>, k: nat)
    requires
        s.items.len() == 0,
    ensures
        wrap_drain(s, k) == s,
{
}

/// Draining `k` messages leaves the messages behind the first `k`.
pub proof fn lemma_wrap_drain_items<P>(s: QueueState<Message<P>>, k: nat)
    requires
        k <= s.items.len(),
    ensures
        wrap_drain(s, k).items == s.items.skip(k as int),
        wrap_drain(s, k).capacity == s.capacity,
    decreases k,
{
    if k > 0 {
        lemma_wrap_drain_items(wrap_drain_one(s), (k - 1) as nat);
        assert(s.items.drop_first().skip(k - 1) =~= s.items.skip(k as int));
    } else {
        assert(s.items.skip(0) =~= s.items);
    }
}

/// Removing the front message from an exactly counted queue keeps the count exact.
pub proof fn lemma_wrap_drain_one_exact<P>(s: QueueState<Message<P>>)
    requires
        s.items.len() > 0,
        s.bytes == total_bytes(s.items),
    ensures
        wrap_drain_one(s).bytes == total_bytes(wrap_drain_one(s).items),
{
    lemma_total_bytes_split(s.items, 1);
    assert(s.items.take(1).drop_last() =~= Seq::<Message<P>>::empty());
    assert(s.items.take(1).last() == s.items[0]);
    assert(total_bytes(Seq::<Message<P>>::empty()) == 0);
    assert(total_bytes(s.items.take(1)) == s.items[0].header.payload_size_bytes);
    assert(s.items.skip(1) =~= s.items.drop_first());
    lemma_total_bytes_nonneg(s.items.drop_first());
    let b = s.bytes;
    let f = s.items[0].header.payload_size_bytes;
    assert(b >= f);
    assert(b.wrapping_sub(f) == b - f);
}

/// Draining keeps an exact byte count exact, never adds messages, and keeps the capacity.
pub proof fn lemma_wrap_drain_exact<P>(s: QueueState<Message<P>>, k: nat)
    requires
        s.bytes == total_bytes(s.items),
    ensures
        wrap_drain(s, k).bytes == total_bytes(wrap_drain(s, k).items),
        wrap_drain(s, k).items.len() <= s.items.len(),
        wrap_drain(s, k).capacity == s.capacity,
    decreases k,
{
    if k > 0 && s.items.len() > 0 {
        lemma_wrap_drain_one_exact(s);
        lemma_wrap_drain_exact(wrap_drain_one(s), (k - 1) as nat);
    }
}

/// Evicting below the hard cap keeps an exact byte count exact, never adds
/// messages, and keeps the capacity.
pub proof fn lemma_evict_exact<P>(s: QueueState<Message<P>>, caps: QueueCaps)
    requires
        s.bytes == total_bytes(s.items),
    ensures
        evict_below_hard(s, caps).bytes == total_bytes(evict_below_hard(s, caps).items),
        evict_below_hard(s, caps).items.len() <= s.items.len(),
        evict_below_hard(s, caps).capacity == s.capacity,
    decreases s.items.len(),
{
    if caps.hard_reached(s.items.len() as int, s.bytes as int) && s.items.len() > 0 {
        lemma_wrap_drain_one_exact(s);
        lemma_evict_exact(wrap_drain_one(s), caps);
    }
}

/// A checked enqueue keeps the queue within its capacity and an exact byte
/// count exact while the new total fits a `usize`.
pub proof fn lemma_checked_admit_exact<P>(s: QueueState<Message<P>>, item: Message<P>, policy: EdgePolicy)
    requires
        s.bytes == total_bytes(s.items),
    ensures
        checked_admit(s, item, policy).0.capacity == s.capacity,
        s.items.len() <= s.capacity ==> checked_admit(s, item, policy).0.items.len() <= s.capacity,
        checked_admit(s, item, policy).0.items.len() <= s.items.len() + 1,
        total_bytes(checked_admit(s, item, policy).0.items) <= usize::MAX ==>
            checked_admit(s, item, policy).0.bytes == total_bytes(checked_admit(s, item, policy).0.items),
{
    assert(s.items.push(item).drop_last() =~= s.items);
}

/// Draining `k` messages keeps the messages behind the first `min(k, len)`.
pub proof fn lemma_wrap_drain_suffix<P>(s: QueueState<Message<P>>, k: nat)
    ensures
        k <= s.items.len() ==> wrap_drain(s, k).items == s.items.skip(k as int),
        k > s.items.len() ==> wrap_drain(s, k).items == s.items.skip(s.items.len() as int),
    decreases k,
{
    if k <= s.items.len() {
        lemma_wrap_drain_items(s, k);
    } else if s.items.len() == 0 {
        assert(s.items.skip(0) =~= s.items);
    } else {
        lemma_wrap_drain_suffix(wrap_drain_one(s), (k - 1) as nat);
        assert(s.items.drop_first().skip(s.items.drop_first().len() as int) =~= s.items.skip(s.items.len() as int));
    }
}

/// Evicting below the hard cap keeps the messages behind some number of front ones.
pub proof fn lemma_evict_suffix<P>(s: QueueState<Message<P>>, caps: QueueCaps) -> (e: int)
    ensures
        0 <= e <= s.items.len(),
        evict_below_hard(s, caps).items == s.items.skip(e),
    decreases s.items.len(),
{
    if caps.hard_reached(s.items.len() as int, s.bytes as int) && s.items.len() > 0 {
        let e1 = lemma_evict_suffix(wrap_drain_one(s), caps);
        assert(s.items.drop_first().skip(e1) =~= s.items.skip(e1 + 1));
        e1 + 1
    } else {
        assert(s.items.skip(0) =~= s.items);
        0
    }
}

/// Evicting below the hard cap from an exactly counted queue removes the fewest
/// front messages that bring the queue below the hard cap (all of them when no
/// shorter suffix is below it).
pub proof fn lemma_evict_minimal<P>(s: QueueState<Message<P>>, caps: QueueCaps) -> (e: int)
    requires
        s.bytes == total_bytes(s.items),
    ensures
        0 <= e <= s.items.len(),
        evict_below_hard(s, caps).items == s.items.skip(e),
        e < s.items.len() ==> !caps.hard_reached(s.items.len() - e, total_bytes(s.items.skip(e))),
        forall|j: int| 0 <= j < e ==> caps.hard_reached(s.items.len() - j, #[trigger] total_bytes(s.items.skip(j))),
    decreases s.items.len(),
{
    if caps.hard_reached(s.items.len() as int, s.bytes as int) && s.items.len() > 0 {
        lemma_wrap_drain_one_exact(s);
        let s1 = wrap_drain_one(s);
        let e1 = lemma_evict_minimal(s1, caps);
        assert(s1.items.skip(e1) =~= s.items.skip(e1 + 1));
        assert(s.items.skip(0) =~= s.items);
        assert forall|j: int| 0 <= j < e1 + 1 implies caps.hard_reached(s.items.len() - j, #[trigger] total_bytes(s.items.skip(j))) by {
            if j > 0 {
                assert(s1.items.skip(j - 1) =~= s.items.skip(j));
                assert(caps.hard_reached(s1.items.len() - (j - 1), total_bytes(s1.items.skip(j - 1))));
            }
        }
        e1 + 1
    } else {
        assert(s.items.skip(0) =~= s.items);
        0
    }
}

/// The slots of a well-formed ring hold at most one message fewer than there
/// are slots: one slot always stays free.
pub proof fn law_ring_keeps_one_slot_free<T>(r: SpscAtomicRing<T>)
    requires
        r.ring_wf(),
    ensures
        r@.items.len() <= r@.capacity,
        r@.capacity == r.slots() - 1,
{
}

impl<P: Payload + Clone> SpscAtomicRing<Message<P>> {
    /// Pop the front message and lower the byte counter by its size.
    fn evict_one(&mut self) -> (ev: Message<P>)
        requires
            old(self).ring_wf(),
            old(self)@.items.len() > 0,
        ensures
            final(self).ring_wf(),
            final(self)@ == wrap_drain_one(old(self)@),
            ev == old(self)@.items[0],
    {
        let ev = self.pop_raw();
        let ghost mid = *self;
        self.bytes_in_queue = self.bytes_in_queue.wrapping_sub(ev.header.payload_size_bytes);
        proof {
            Self::lemma_same_slots(&mid, self);
        }
        ev
    }

    /// Enqueue unless the ring is full or at the hard cap.
    fn accept_checked(&mut self, item: Message<P>, policy: &EdgePolicy) -> (r: EnqueueResult)
        requires
            old(self).ring_wf(),
        ensures
            final(self).ring_wf(),
            (final(self)@, r) == checked_admit(old(self)@, item, *policy),
    {
        let items = self.len();
        let bytes = self.bytes_in_queue;
        if self.is_full() || policy.caps.at_or_above_hard(items, bytes) {
            return EnqueueResult::Rejected;
        }
        let ghost mid = *self;
        self.bytes_in_queue = self.bytes_in_queue.wrapping_add(item.header.payload_size_bytes);
        proof {
            Self::lemma_same_slots(&mid, self);
        }
        self.push_raw(item);
        EnqueueResult::Enqueued
    }

    /// Pop exactly `k` messages, collecting them into `out` when `keep` is set.
    fn drain_n(&mut self, k: usize, keep: bool, out: &mut Vec<Message<P>>)
        requires
            old(self).ring_wf(),
            k <= old(self)@.items.len(),
        ensures
            final(self).ring_wf(),
            final(self)@ == wrap_drain(old(self)@, k as nat),
            keep ==> final(out)@ == old(out)@ + old(self)@.items.take(k as int),
            !keep ==> final(out)@ == old(out)@,
    {
        let ghost s0 = self@;
        let mut i: usize = 0;
        while i < k
            invariant
                k <= s0.items.len(),
                0 <= i <= k,
                self.ring_wf(),
                self@ == wrap_drain(s0, i as nat),
                keep ==> out@ == old(out)@ + s0.items.take(i as int),
                !keep ==> out@ == old(out)@,
            decreases k - i,
        {
            proof {
                lemma_wrap_drain_items(s0, i as nat);
                lemma_wrap_drain_split(s0, i as nat, 1);
                lemma_wrap_drain_single(self@);
            }
            let item = self.evict_one();
            proof {
                assert(s0.items.take(i + 1) =~= s0.items.take(i as int).push(item));
            }
            if keep {
                out.push(item);
                proof {
                    assert(old(out)@ + s0.items.take(i + 1) =~= (old(out)@ + s0.items.take(i as int)).push(item));
                }
            }
            i = i + 1;
        }
    }

    /// Number of leading messages created within `cap` ticks of the front one.
    fn count_within_delta(&self, cap: Ticks) -> (c: usize)
        requires
            self.ring_wf(),
            self@.items.len() > 0,
        ensures
            c == delta_count(self@.items, cap),
    {
        let available = self.len();
        let front = self.peek_ref_at_offset(0).header.creation_tick;
        let mut c: usize = 0;
        proof {
            lemma_run_within_bounds(self@.items, front, cap, 0);
        }
        while c < available
            invariant
                self.ring_wf(),
                available == self@.items.len(),
                front == self@.items[0].header.creation_tick,
                0 <= c <= available,
                run_within(self@.items, front, cap, c as int) == run_within(self@.items, front, cap, 0),
            decreases available - c,
        {
            let delta = self.peek_ref_at_offset(c).header.creation_tick.saturating_sub(front);
            if delta.0 <= cap.0 {
                c = c + 1;
            } else {
                return c;
            }
        }
        c
    }
}

impl<P: Payload + Clone> Edge<P> for SpscAtomicRing<Message<P>> {
    type Model = QueueState<Message<P>>;

    open spec fn model(&self) -> QueueState<Message<P>> {
        self@
    }

    open spec fn well_formed(&self) -> bool {
        self.ring_wf()
    }

    open spec fn push_model(m: QueueState<Message<P>>, item: Message<P>, policy: EdgePolicy) -> (QueueState<Message<P>>, EnqueueResult) {
        atomic_push(m, item, policy)
    }

    open spec fn pop_model(m: QueueState<Message<P>>) -> (QueueState<Message<P>>, Result<Message<P>, QueueError>) {
        atomic_pop(m)
    }

    open spec fn occupancy_defined(m: QueueState<Message<P>>) -> bool {
        true
    }

    open spec fn occupancy_model(m: QueueState<Message<P>>, policy: EdgePolicy) -> EdgeOccupancy {
        queue_occupancy(m, policy)
    }

    open spec fn peek_model(m: QueueState<Message<P>>, index: int) -> Result<Message<P>, QueueError> {
        peek_index(m, index)
    }

    open spec fn batch_model(m: QueueState<Message<P>>, policy: BatchingPolicy) -> (QueueState<Message<P>>, Result<Seq<Message<P>>, QueueError>) {
        atomic_batch(m, policy)
    }

    fn try_push(&mut self, item: Message<P>, policy: &EdgePolicy) -> (r: EnqueueResult) {
        let ghost s0 = self@;
        let decision = policy.decide(self.len(), self.bytes_in_queue, item.header.qos);
        let item_bytes = item.header.payload_size_bytes;
        match decision {
            AdmissionDecision::Admit => self.accept_checked(item, policy),
            AdmissionDecision::DropNewest => EnqueueResult::DroppedNewest,
            AdmissionDecision::Reject => EnqueueResult::Rejected,
            AdmissionDecision::Block => EnqueueResult::Rejected,
            AdmissionDecision::Evict(n) => {
                let mut i: usize = 0;
                while i < n && self.len() > 0
                    invariant
                        0 <= i <= n,
                        self.ring_wf(),
                        self@ == wrap_drain(s0, i as nat),
                    decreases n - i,
                {
                    proof {
                        lemma_wrap_drain_split(s0, i as nat, 1);
                        lemma_wrap_drain_single(self@);
                    }
                    self.evict_one();
                    i = i + 1;
                }
                proof {
                    lemma_wrap_drain_split(s0, i as nat, (n - i) as nat);
                    if self@.items.len() == 0 {
                        lemma_wrap_drain_empty(self@, (n - i) as nat);
                    }
                }
                self.accept_checked(item, policy)
            },
            AdmissionDecision::EvictUntilBelowHard => {
                while policy.caps.at_or_above_hard(self.len(), self.bytes_in_queue) && self.len() > 0
                    invariant
                        self.ring_wf(),
                        evict_below_hard(self@, policy.caps) == evict_below_hard(s0, policy.caps),
                    decreases self@.items.len(),
                {
                    self.evict_one();
                }
                if policy.caps.at_or_above_hard(0, item_bytes) {
                    return EnqueueResult::Rejected;
                }
                self.accept_checked(item, policy)
            },
        }
    }

    fn try_pop(&mut self) -> (r: Result<Message<P>, QueueError>) {
        if self.len() == 0 {
            return Err(QueueError::Empty);
        }
        let item = self.evict_one();
        Ok(item)
    }

    fn occupancy(&self, policy: &EdgePolicy) -> (o: EdgeOccupancy) {
        let items = self.len();
        let bytes = self.bytes_in_queue;
        let watermark = policy.watermark(items, bytes);
        EdgeOccupancy { items, bytes, watermark }
    }

    fn try_peek(&self) -> (r: Result<PeekResponse<'_, Message<P>>, QueueError>) {
        if self.len() == 0 {
            return Err(QueueError::Empty);
        }
        Ok(PeekResponse::Borrowed(self.peek_ref_at_offset(0)))
    }

    fn try_peek_at(&self, index: usize) -> (r: Result<PeekResponse<'_, Message<P>>, QueueError>) {
        let available = self.len();
        if index >= available {
            return Err(QueueError::Empty);
        }
        Ok(PeekResponse::Borrowed(self.peek_ref_at_offset(index)))
    }

    fn try_pop_batch(&mut self, policy: &BatchingPolicy) -> (r: Result<BatchView<'_, P>, QueueError>) {
        let ghost s0 = self@;
        let available = self.len();
        if available == 0 {
            return Err(QueueError::Empty);
        }

        let delta_t_opt = policy.max_delta_t;
        let window_kind = policy.window_kind();
        let effective_fixed = policy.effective_fixed();

        let mut delta_count = available;
        if let Some(cap) = delta_t_opt {
            delta_count = self.count_within_delta(cap);
        }

        match window_kind {
            WindowKind::Disjoint => {
                proof {
                    lemma_batch_sizes(s0.items, *policy, 0);
                }
                let take_n = apply_fixed(effective_fixed, min_usize(available, delta_count));
                if take_n == 0 {
                    return Err(QueueError::Empty);
                }
                let mut out: Vec<Message<P>> = Vec::with_capacity(take_n);
                self.drain_n(take_n, true, &mut out);
                proof {
                    assert(out@ =~= s0.items.take(take_n as int));
                }
                Ok(BatchView::from_owned(out))
            },
            WindowKind::Sliding(sw) => {
                let stride = sw.stride;
                let size = sw.size;
                proof {
                    lemma_batch_sizes(s0.items, *policy, size as int);
                }
                let present_n = apply_fixed(effective_fixed, min_usize(min_usize(available, size), delta_count));
                if present_n == 0 {
                    return Err(QueueError::Empty);
                }
                let mut out: Vec<Message<P>> = Vec::with_capacity(present_n);
                let mut i: usize = 0;
                while i < present_n
                    invariant
                        present_n <= available == s0.items.len(),
                        self.ring_wf(),
                        self@ == s0,
                        0 <= i <= present_n,
                        out@.len() == i,
                        forall|j: int| 0 <= j < i ==> copy_of(s0.items[j], #[trigger] out@[j]),
                    decreases present_n - i,
                {
                    let cloned = self.peek_ref_at_offset(i).clone();
                    out.push(cloned);
                    i = i + 1;
                }
                let stride_to_pop = min_usize(stride, available);
                let mut dropped: Vec<Message<P>> = Vec::new();
                self.drain_n(stride_to_pop, false, &mut dropped);
                proof {
                    let want = s0.items.take(present_n as int);
                    assert(want.len() == out@.len());
                    assert forall|j: int| 0 <= j < want.len() implies copy_of(#[trigger] want[j], out@[j]) by {
                        assert(want[j] == s0.items[j]);
                    }
                }
                Ok(BatchView::from_owned(out))
            },
        }
    }
}

} // verus!
