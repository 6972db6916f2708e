//! Message headers, messages and the payload contract.

use vstd::prelude::*;
use crate::memory::{BufferDescriptor, MemoryClass};
use crate::types::{QoSClass, Ticks};

verus! {

/// Batch boundary flags of a message.
#[derive(Debug, Clone, Copy, PartialEq, Eq, Structural)]
pub struct MessageFlags {
    /// The message opens a batch.
    pub first_in_batch: bool,
    /// The message closes a batch.
    pub last_in_batch: bool,
}

impl MessageFlags {
    /// No flag set.
    pub fn empty() -> (f: MessageFlags)
        ensures
            !f.first_in_batch,
            !f.last_in_batch,
    {
        MessageFlags { first_in_batch: false, last_in_batch: false }
    }

    /// Is FIRST_IN_BATCH set?
    pub fn is_first(&self) -> (b: bool)
        ensures
            b == self.first_in_batch,
    {
        self.first_in_batch
    }

    /// Is LAST_IN_BATCH set?
    pub fn is_last(&self) -> (b: bool)
        ensures
            b == self.last_in_batch,
    {
        self.last_in_batch
    }
}

/// Metadata travelling with every message.
#[derive(Debug, Clone, Copy, PartialEq, Eq, Structural)]
pub struct MessageHeader {
    /// Tick at which the message was created.
    pub creation_tick: Ticks,
    /// Optional absolute deadline in nanoseconds.
    pub deadline_ns: Option<u64>,
    /// QoS class used for routing and admission.
    pub qos: QoSClass,
    /// Size of the payload in bytes, as reported by the payload when the message was built.
    pub payload_size_bytes: usize,
    /// Batch boundary flags.
    pub flags: MessageFlags,
}

impl MessageHeader {
    /// A header with tick zero, no deadline, standard QoS, zero bytes and no flags.
    pub fn empty() -> (h: MessageHeader)
        ensures
            h.creation_tick.0 == 0,
            h.deadline_ns is None,
            h.qos == QoSClass::Standard,
            h.payload_size_bytes == 0,
            !h.flags.first_in_batch,
            !h.flags.last_in_batch,
    {
        MessageHeader {
            creation_tick: Ticks(0),
            deadline_ns: None,
            qos: QoSClass::Standard,
            payload_size_bytes: 0,
            flags: MessageFlags::empty(),
        }
    }

    /// Creation tick.
    pub fn creation_tick(&self) -> (t: &Ticks)
        ensures
            *t == self.creation_tick,
    {
        &self.creation_tick
    }

    /// Absolute deadline, if any.
    pub fn deadline_ns(&self) -> (d: &Option<u64>)
        ensures
            *d == self.deadline_ns,
    {
        &self.deadline_ns
    }

    /// QoS class.
    pub fn qos(&self) -> (q: &QoSClass)
        ensures
            *q == self.qos,
    {
        &self.qos
    }

    /// Payload size in bytes.
    pub fn payload_size_bytes(&self) -> (b: &usize)
        ensures
            *b == self.payload_size_bytes,
    {
        &self.payload_size_bytes
    }

    /// Batch flags.
    pub fn flags(&self) -> (f: &MessageFlags)
        ensures
            *f == self.flags,
    {
        &self.flags
    }

    /// Set the creation tick.
    pub fn set_creation_tick(&mut self, t: Ticks)
        ensures
            *final(self) == (MessageHeader { creation_tick: t, ..*old(self) }),
    {
        self.creation_tick = t;
    }

    /// Set the QoS class.
    pub fn set_qos(&mut self, q: QoSClass)
        ensures
            *final(self) == (MessageHeader { qos: q, ..*old(self) }),
    {
        self.qos = q;
    }

    /// Set the deadline.
    pub fn set_deadline_ns(&mut self, d: Option<u64>)
        ensures
            *final(self) == (MessageHeader { deadline_ns: d, ..*old(self) }),
    {
        self.deadline_ns = d;
    }

    /// Mark the message as the first of its batch.
    pub fn set_first_in_batch(&mut self)
        ensures
            *final(self) == (MessageHeader {
                flags: MessageFlags { first_in_batch: true, ..old(self).flags },
                ..*old(self)
            }),
    {
        self.flags.first_in_batch = true;
    }

    /// Mark the message as the last of its batch.
    pub fn set_last_in_batch(&mut self)
        ensures
            *final(self) == (MessageHeader {
                flags: MessageFlags { last_in_batch: true, ..old(self).flags },
                ..*old(self)
            }),
    {
        self.flags.last_in_batch = true;
    }
}

/// Anything that can travel as a message payload.
pub trait Payload {
    /// Whether the descriptor of this payload can be computed without overflow.
    spec fn descriptor_fits(&self) -> bool;

    /// The descriptor of this payload.
    spec fn descriptor(&self) -> BufferDescriptor;

    /// Size and placement of the payload buffer.
    fn buffer_descriptor(&self) -> (d: BufferDescriptor)
        requires
            self.descriptor_fits(),
        ensures
            d == self.descriptor(),
    ;
}

impl Payload for u8 {
    open spec fn descriptor_fits(&self) -> bool { true }

    open spec fn descriptor(&self) -> BufferDescriptor {
        BufferDescriptor { bytes: 1, class: MemoryClass::Host }
    }

    fn buffer_descriptor(&self) -> (d: BufferDescriptor) {
        BufferDescriptor::new(1, MemoryClass::Host)
    }
}

impl Payload for u16 {
    open spec fn descriptor_fits(&self) -> bool { true }

    open spec fn descriptor(&self) -> BufferDescriptor {
        BufferDescriptor { bytes: 2, class: MemoryClass::Host }
    }

    fn buffer_descriptor(&self) -> (d: BufferDescriptor) {
        BufferDescriptor::new(2, MemoryClass::Host)
    }
}

impl Payload for u32 {
    open spec fn descriptor_fits(&self) -> bool { true }

    open spec fn descriptor(&self) -> BufferDescriptor {
        BufferDescriptor { bytes: 4, class: MemoryClass::Host }
    }

    fn buffer_descriptor(&self) -> (d: BufferDescriptor) {
        BufferDescriptor::new(4, MemoryClass::Host)
    }
}

impl Payload for u64 {
    open spec fn descriptor_fits(&self) -> bool { true }

    open spec fn descriptor(&self) -> BufferDescriptor {
        BufferDescriptor { bytes: 8, class: MemoryClass::Host }
    }

    fn buffer_descriptor(&self) -> (d: BufferDescriptor) {
        BufferDescriptor::new(8, MemoryClass::Host)
    }
}

impl Payload for () {
    open spec fn descriptor_fits(&self) -> bool { true }

    open spec fn descriptor(&self) -> BufferDescriptor {
        BufferDescriptor { bytes: 0, class: MemoryClass::Host }
    }

    fn buffer_descriptor(&self) -> (d: BufferDescriptor) {
        BufferDescriptor::new(0, MemoryClass::Host)
    }
}

/// A payload together with its header.
#[derive(Debug)]
pub struct Message<P> {
    /// Metadata.
    pub header: MessageHeader,
    /// The carried value.
    pub payload: P,
}

impl<P: Payload> Message<P> {
    /// Build a message; the header's payload size is taken from the payload's descriptor.
    pub fn new(header: MessageHeader, payload: P) -> (m: Message<P>)
        requires
            payload.descriptor_fits(),
        ensures
            m.header == (MessageHeader {
                payload_size_bytes: payload.descriptor().bytes,
                ..header
            }),
            m.payload == payload,
    {
        let d = payload.buffer_descriptor();
        let mut header = header;
        header.payload_size_bytes = d.bytes;
        Message { header, payload }
    }
}

impl<P> Message<P> {
    /// The header.
    pub fn header(&self) -> (h: &MessageHeader)
        ensures
            *h == self.header,
    {
        &self.header
    }

    /// Mutable access to the header.
    pub fn header_mut(&mut self) -> (h: &mut MessageHeader)
        ensures
            *h == old(self).header,
            *final(self) == (Message { header: *final(h), payload: old(self).payload }),
    {
        &mut self.header
    }

    /// The payload.
    pub fn payload(&self) -> (p: &P)
        ensures
            *p == self.payload,
    {
        &self.payload
    }

    /// Mutable access to the payload.
    pub fn payload_mut(&mut self) -> (p: &mut P)
        ensures
            *p == old(self).payload,
            *final(self) == (Message { header: old(self).header, payload: *final(p) }),
    {
        &mut self.payload
    }
}

impl<P: Clone> Clone for Message<P> {
    fn clone(&self) -> (m: Self)
        ensures
            m.header == self.header,
            cloned(self.payload, m.payload),
    {
        Message { header: self.header, payload: self.payload.clone() }
    }
}

/// `copy` is `orig` itself or a clone of it: same header, payload equal or cloned.
pub open spec fn copy_of<P: Clone>(orig: Message<P>, copy: Message<P>) -> bool {
    &&& copy.header == orig.header
    &&& (copy.payload == orig.payload || cloned::<P>(orig.payload, copy.payload))
}

/// Sum of the header payload sizes of `msgs`, as a mathematical integer.
pub open spec fn total_bytes<P>(msgs: Seq<Message<P>>) -> int
    decreases msgs.len(),
{
    if msgs.len() == 0 {
        0
    } else {
        total_bytes(msgs.drop_last()) + msgs.last().header.payload_size_bytes
    }
}

/// `total_bytes` of a concatenation is the sum of the parts.
pub proof fn lemma_total_bytes_concat<P>(a: Seq<Message<P>>, b: Seq<Message<P>>)
    ensures
        total_bytes(a + b) == total_bytes(a) + total_bytes(b),
    decreases b.len(),
{
    if b.len() == 0 {
        assert(a + b =~= a);
    } else {
        assert((a + b).drop_last() =~= a + b.drop_last());
        lemma_total_bytes_concat(a, b.drop_last());
    }
}

/// `total_bytes` is never negative.
pub proof fn lemma_total_bytes_nonneg<P>(a: Seq<Message<P>>)
    ensures
        total_bytes(a) >= 0,
    decreases a.len(),
{
    if a.len() > 0 {
        lemma_total_bytes_nonneg(a.drop_last());
    }
}

/// Splitting a sequence at `k`: the total of the whole is the total of the two parts.
pub proof fn lemma_total_bytes_split<P>(a: Seq<Message<P>>, k: int)
    requires
        0 <= k <= a.len(),
    ensures
        total_bytes(a) == total_bytes(a.take(k)) + total_bytes(a.skip(k)),
{
    assert(a =~= a.take(k) + a.skip(k));
    lemma_total_bytes_concat(a.take(k), a.skip(k));
}

} // verus!
