//! Batches of messages.
//!
//! - `Batch<'a, P>`: a thin, immutable view over a slice of messages, handed to
//!   nodes, policies and telemetry;
//! - `BatchView<'a, P>`: the container (owned or borrowed) in which queues and
//!   the runtime assemble a batch before handing out a `Batch`.

use vstd::prelude::*;
use vstd::std_specs::iter::IteratorSpec;
use crate::memory::{BufferDescriptor, MemoryClass};
use crate::message::{total_bytes, Message, MessageHeader, Payload};

verus! {

broadcast use vstd::std_specs::slice::group_slice_axioms;

/// The first `n` elements of `s`.
fn prefix<'b, T>(s: &'b [T], n: usize) -> (r: &'b [T])
    requires
        n <= s@.len(),
    ensures
        r@ == s@.take(n as int),
{
    let (a, _) = s.split_at(n);
    a
}

/// Whether the batch boundary flags of `msgs` are consistent: the first message
/// is flagged FIRST, the last one LAST, and no message in between carries a flag.
pub open spec fn flags_consistent<P>(msgs: Seq<Message<P>>) -> bool {
    msgs.len() > 0 ==> {
        &&& msgs[0].header.flags.first_in_batch
        &&& msgs.last().header.flags.last_in_batch
        &&& forall|i: int|
            1 <= i < msgs.len() - 1 ==> {
                &&& !(#[trigger] msgs[i]).header.flags.first_in_batch
                &&& !msgs[i].header.flags.last_in_batch
            }
    }
}

/// Bytes a batch of `msgs` occupies: the payload bytes plus one header per message.
pub open spec fn batch_bytes<P>(msgs: Seq<Message<P>>) -> int {
    total_bytes(msgs) + msgs.len() * vstd::layout::size_of::<MessageHeader>()
}

/// A thin batch view over a slice of messages.
#[derive(Debug, Copy, Clone)]
pub struct Batch<'a, P: Payload> {
    messages: &'a [Message<P>],
}

impl<'a, P: Payload> View for Batch<'a, P> {
    type V = Seq<Message<P>>;

    closed spec fn view(&self) -> Seq<Message<P>> {
        self.messages@
    }
}

impl<'a, P: Payload> Batch<'a, P> {
    /// Construct a batch over a slice of messages.
    pub fn new(messages: &'a [Message<P>]) -> (b: Self)
        ensures
            b@ == messages@,
    {
        Batch { messages }
    }

    /// The underlying messages.
    pub fn messages(&self) -> (s: &'a [Message<P>])
        ensures
            s@ == self@,
    {
        self.messages
    }

    /// Number of messages.
    pub fn len(&self) -> (n: usize)
        ensures
            n == self@.len(),
    {
        self.messages.len()
    }

    /// Whether the batch holds no message.
    pub fn is_empty(&self) -> (b: bool)
        ensures
            b == (self@.len() == 0),
    {
        self.messages.len() == 0
    }

    /// Total payload bytes over all messages, as recorded in their headers.
    pub fn total_payload_bytes(&self) -> (t: usize)
        requires
            total_bytes(self@) <= usize::MAX,
        ensures
            t == total_bytes(self@),
    {
        let mut t: usize = 0;
        let mut i: usize = 0;
        while i < self.messages.len()
            invariant
                i <= self.messages@.len(),
                self.messages@ == self@,
                total_bytes(self@) <= usize::MAX,
                t == total_bytes(self@.take(i as int)),
            decreases self.messages@.len() - i,
        {
            proof {
                assert(self@.take(i + 1).drop_last() =~= self@.take(i as int));
                crate::message::lemma_total_bytes_split(self@, i + 1);
                crate::message::lemma_total_bytes_nonneg(self@.skip(i + 1));
            }
            t = t + self.messages[i].header.payload_size_bytes;
            i = i + 1;
        }
        assert(self@.take(i as int) =~= self@);
        t
    }

    /// Iterate over the messages in order.
    pub fn iter(&self) -> (it: core::slice::Iter<'a, Message<P>>)
        ensures
            it.remaining() == self@.map_values(|m: Message<P>| &m),
    {
        self.messages.iter()
    }

    /// Whether the first message is flagged FIRST (false for an empty batch).
    pub fn first_flagged(&self) -> (b: bool)
        ensures
            b == (self@.len() > 0 && self@[0].header.flags.first_in_batch),
    {
        match self.messages.first() {
            Some(m) => m.header.flags.is_first(),
            None => false,
        }
    }

    /// Whether the last message is flagged LAST (false for an empty batch).
    pub fn last_flagged(&self) -> (b: bool)
        ensures
            b == (self@.len() > 0 && self@.last().header.flags.last_in_batch),
    {
        match self.messages.last() {
            Some(m) => m.header.flags.is_last(),
            None => false,
        }
    }

    /// Check that the flags agree with the batch boundaries: the first message
    /// carries the first-in-batch flag, the last one the last-in-batch flag, and
    /// no message in between carries either.
    pub fn assert_flags_consistent(&self)
        requires
            flags_consistent(self@),
    {
        if self.is_empty() {
            return;
        }
        assert(self@[0].header.flags.first_in_batch);
        let n = self.messages.len();
        let mut i: usize = 1;
        while i < n - 1
            invariant
                1 <= n == self@.len(),
                1 <= i <= n,
                self.messages@ == self@,
                flags_consistent(self@),
            decreases n - i,
        {
            let m = &self.messages[i];
            assert(!m.header.flags.first_in_batch && !m.header.flags.last_in_batch);
            i = i + 1;
        }
        assert(self@.last().header.flags.last_in_batch);
    }
}

impl<'a, P: Payload> Payload for Batch<'a, P> {
    open spec fn descriptor_fits(&self) -> bool {
        batch_bytes(self@) <= usize::MAX
    }

    open spec fn descriptor(&self) -> BufferDescriptor {
        BufferDescriptor { bytes: batch_bytes(self@) as usize, class: MemoryClass::Host }
    }

    fn buffer_descriptor(&self) -> (d: BufferDescriptor) {
        descriptor_of(self.messages)
    }
}

impl<'a, P: Payload> Payload for &'a Batch<'a, P> {
    open spec fn descriptor_fits(&self) -> bool {
        (**self).descriptor_fits()
    }

    open spec fn descriptor(&self) -> BufferDescriptor {
        (**self).descriptor()
    }

    fn buffer_descriptor(&self) -> (d: BufferDescriptor) {
        (**self).buffer_descriptor()
    }
}

/// Descriptor of a run of messages: payload bytes plus one header per message, in host memory.
fn descriptor_of<P>(msgs: &[Message<P>]) -> (d: BufferDescriptor)
    requires
        batch_bytes(msgs@) <= usize::MAX,
    ensures
        d == (BufferDescriptor { bytes: batch_bytes(msgs@) as usize, class: MemoryClass::Host }),
{
    let mut t: usize = 0;
    let mut i: usize = 0;
    let h = core::mem::size_of::<MessageHeader>();
    proof {
        crate::message::lemma_total_bytes_nonneg(msgs@);
        assert(msgs@.len() * vstd::layout::size_of::<MessageHeader>() >= 0) by (nonlinear_arith);
    }
    while i < msgs.len()
        invariant
            i <= msgs@.len(),
            batch_bytes(msgs@) <= usize::MAX,
            total_bytes(msgs@) >= 0,
            msgs@.len() * vstd::layout::size_of::<MessageHeader>() >= 0,
            t == total_bytes(msgs@.take(i as int)),
        decreases msgs@.len() - i,
    {
        proof {
            assert(msgs@.take(i + 1).drop_last() =~= msgs@.take(i as int));
            crate::message::lemma_total_bytes_split(msgs@, i + 1);
            crate::message::lemma_total_bytes_nonneg(msgs@.skip(i + 1));
        }
        t = t + msgs[i].header.payload_size_bytes;
        i = i + 1;
    }
    assert(msgs@.take(i as int) =~= msgs@);
    let n = msgs.len();
    proof {
        assert(n * h <= usize::MAX) by (nonlinear_arith)
            requires
                t + n * h <= usize::MAX,
                t >= 0,
        ;
    }
    BufferDescriptor::new(t + n * h, MemoryClass::Host)
}


#[verifier::external_type_specification]
#[verifier::external_body]
#[verifier::reject_recursive_types(T)]
pub struct ExIterMut<'a, T: 'a>(core::slice::IterMut<'a, T>);

/// Mutable iterator over a slice (`<[T]>::iter_mut`): it yields, in order, one
/// mutable reference per element, each starting at that element, and then
/// `None`; the slice's final contents are the final values behind those
/// references.
#[verifier::external_body]
fn slice_iter_mut<'b, T>(s: &'b mut [T]) -> (it: core::slice::IterMut<'b, T>)
    ensures
        it.obeys_prophetic_iter_laws(),
        it.remaining().len() == old(s)@.len(),
        forall|i: int| 0 <= i < old(s)@.len() ==> *#[trigger] it.remaining()[i] == old(s)@[i],
        final(s)@.len() == old(s)@.len(),
        forall|i: int| 0 <= i < old(s)@.len() ==> final(s)@[i] == *final(#[trigger] it.remaining()[i]),
{
    s.iter_mut()
}

/// The container in which a batch is assembled: an owned vector, or a borrowed
/// buffer of which only a prefix of the given length belongs to the batch.
#[derive(Debug)]
pub enum BatchView<'a, P: Payload> {
    /// The batch owns its messages.
    Owned(Vec<Message<P>>),
    /// The first `len` messages of a borrowed buffer.
    Borrowed(&'a mut [Message<P>], usize),
}

impl<'a, P: Payload> BatchView<'a, P> {
    /// The messages of the batch, in order.
    pub open spec fn msgs(&self) -> Seq<Message<P>> {
        match self {
            BatchView::Owned(v) => v@,
            BatchView::Borrowed(buf, n) => buf@.take(*n as int),
        }
    }

    /// The part of a borrowed buffer past the batch (nothing for an owned batch).
    pub open spec fn beyond(&self) -> Seq<Message<P>> {
        match self {
            BatchView::Owned(_) => Seq::empty(),
            BatchView::Borrowed(buf, n) => buf@.skip(*n as int),
        }
    }

    /// A borrowed view's length lies within its buffer.
    pub open spec fn wf(&self) -> bool {
        match self {
            BatchView::Owned(_) => true,
            BatchView::Borrowed(buf, n) => *n <= buf@.len(),
        }
    }

    /// Build from an owned vector.
    pub fn from_owned(v: Vec<Message<P>>) -> (b: Self)
        ensures
            b.wf(),
            b.msgs() == v@,
            b is Owned,
    {
        BatchView::Owned(v)
    }

    /// Build from the first `len` messages of a borrowed buffer.
    pub fn from_borrowed(buf: &'a mut [Message<P>], len: usize) -> (b: Self)
        requires
            len <= old(buf)@.len(),
        ensures
            b.wf(),
            b.msgs() == old(buf)@.take(len as int),
            b.beyond() == old(buf)@.skip(len as int),
            b is Borrowed,
            b->Borrowed_1 == len,
            b->Borrowed_0@ == old(buf)@,
            final(buf)@ == final(b->Borrowed_0)@,
    {
        BatchView::Borrowed(buf, len)
    }

    /// Number of messages.
    pub fn len(&self) -> (n: usize)
        requires
            self.wf(),
        ensures
            n == self.msgs().len(),
    {
        match self {
            BatchView::Owned(v) => v.len(),
            BatchView::Borrowed(_, n) => *n,
        }
    }

    /// Whether the batch holds no message.
    pub fn is_empty(&self) -> (b: bool)
        requires
            self.wf(),
        ensures
            b == (self.msgs().len() == 0),
    {
        self.len() == 0
    }

    /// The messages as a slice.
    fn as_slice(&self) -> (s: &[Message<P>])
        requires
            self.wf(),
        ensures
            s@ == self.msgs(),
    {
        match self {
            BatchView::Owned(v) => v.as_slice(),
            BatchView::Borrowed(buf, n) => prefix(&**buf, *n),
        }
    }

    /// Iterate over the messages in order.
    pub fn iter(&self) -> (it: core::slice::Iter<'_, Message<P>>)
        requires
            self.wf(),
        ensures
            it.remaining() == self.msgs().map_values(|m: Message<P>| &m),
    {
        self.as_slice().iter()
    }

    /// Iterate mutably over the messages in order: the iterator yields one
    /// mutable reference per message, each starting at that message, and the
    /// batch's final messages are the final values behind those references; a
    /// borrowed buffer past the batch is left as it was.
    pub fn iter_mut(&mut self) -> (it: core::slice::IterMut<'_, Message<P>>)
        requires
            old(self).wf(),
        ensures
            it.obeys_prophetic_iter_laws(),
            it.remaining().len() == old(self).msgs().len(),
            forall|i: int| 0 <= i < old(self).msgs().len() ==> *#[trigger] it.remaining()[i] == old(self).msgs()[i],
            final(self).wf(),
            (*final(self) is Owned) <==> (*old(self) is Owned),
            final(self).msgs().len() == old(self).msgs().len(),
            forall|i: int| 0 <= i < old(self).msgs().len() ==> final(self).msgs()[i] == *final(#[trigger] it.remaining()[i]),
            final(self).beyond() == old(self).beyond(),
            (*old(self) is Borrowed) ==> final(final(self)->Borrowed_0)@ == final(old(self)->Borrowed_0)@,
    {
        match self {
            BatchView::Owned(v) => slice_iter_mut(v.as_mut_slice()),
            BatchView::Borrowed(buf, n) => {
                let (a, _) = buf.split_at_mut(*n);
                slice_iter_mut(a)
            }
        }
    }

    /// The public, borrowed `Batch` over these messages.
    pub fn as_batch(&self) -> (b: Batch<'_, P>)
        requires
            self.wf(),
        ensures
            b@ == self.msgs(),
    {
        Batch::new(self.as_slice())
    }

    /// Mutable access to the first message's header, if there is one.
    pub fn first_header_mut(&mut self) -> (h: Option<&mut MessageHeader>)
        requires
            old(self).wf(),
        ensures
            (*final(self) is Owned) <==> (*old(self) is Owned),
            final(self).beyond() == old(self).beyond(),
            (*old(self) is Borrowed) ==> final(final(self)->Borrowed_0)@ == final(old(self)->Borrowed_0)@,
            old(self).msgs().len() == 0 ==> h is None && *final(self) == *old(self),
            old(self).msgs().len() > 0 ==> {
                &&& h is Some
                &&& *h->0 == old(self).msgs()[0].header
                &&& final(self).wf()
                &&& final(self).msgs() == old(self).msgs().update(
                    0,
                    Message { header: *final(h->0), payload: old(self).msgs()[0].payload },
                )
            },
    {
        match self {
            BatchView::Owned(v) => {
                if v.len() == 0 {
                    return None;
                }
                Some(&mut v[0].header)
            },
            BatchView::Borrowed(buf, n) => {
                if *n == 0 {
                    return None;
                }
                Some(&mut buf[0].header)
            },
        }
    }

    /// Mutable access to the last message's header, if there is one.
    pub fn last_header_mut(&mut self) -> (h: Option<&mut MessageHeader>)
        requires
            old(self).wf(),
        ensures
            (*final(self) is Owned) <==> (*old(self) is Owned),
            final(self).beyond() == old(self).beyond(),
            (*old(self) is Borrowed) ==> final(final(self)->Borrowed_0)@ == final(old(self)->Borrowed_0)@,
            old(self).msgs().len() == 0 ==> h is None && *final(self) == *old(self),
            old(self).msgs().len() > 0 ==> {
                let k = old(self).msgs().len() - 1;
                &&& h is Some
                &&& *h->0 == old(self).msgs()[k].header
                &&& final(self).wf()
                &&& final(self).msgs() == old(self).msgs().update(
                    k,
                    Message { header: *final(h->0), payload: old(self).msgs()[k].payload },
                )
            },
    {
        let n = self.len();
        if n == 0 {
            return None;
        }
        match self {
            BatchView::Owned(v) => Some(&mut v[n - 1].header),
            BatchView::Borrowed(buf, _) => Some(&mut buf[n - 1].header),
        }
    }

    /// The owned vector, for an owned batch; `None` for a borrowed one.
    pub fn into_owned_vec(self) -> (v: Option<Vec<Message<P>>>)
        ensures
            self is Owned <==> v is Some,
            v is Some ==> v->0@ == self.msgs(),
    {
        match self {
            BatchView::Owned(v) => Some(v),
            _ => None,
        }
    }

    /// The public, borrowed `Batch` over these messages (same as `as_batch`).
    pub fn into_batch_ref(&self) -> (b: Batch<'_, P>)
        requires
            self.wf(),
        ensures
            b@ == self.msgs(),
    {
        self.as_batch()
    }
}

impl<'a, P: Payload> Payload for BatchView<'a, P> {
    open spec fn descriptor_fits(&self) -> bool {
        self.wf() && batch_bytes(self.msgs()) <= usize::MAX
    }

    open spec fn descriptor(&self) -> BufferDescriptor {
        BufferDescriptor { bytes: batch_bytes(self.msgs()) as usize, class: MemoryClass::Host }
    }

    fn buffer_descriptor(&self) -> (d: BufferDescriptor) {
        descriptor_of(self.as_slice())
    }
}

impl<'a, P: Payload> Payload for &'a BatchView<'a, P> {
    open spec fn descriptor_fits(&self) -> bool {
        (**self).descriptor_fits()
    }

    open spec fn descriptor(&self) -> BufferDescriptor {
        (**self).descriptor()
    }

    fn buffer_descriptor(&self) -> (d: BufferDescriptor) {
        (**self).buffer_descriptor()
    }
}

} // verus!
