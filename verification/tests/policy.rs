use limen::memory::{BufferDescriptor, MemoryClass};
use limen::message::{Message, MessageHeader, Payload};
use limen::policy::{
    apply_fixed, min_usize, AdmissionDecision, AdmissionPolicy, BatchingPolicy, EdgePolicy, OverBudgetAction,
    QueueCaps, SlidingWindow, WatermarkState, WindowKind,
};
use limen::batch::{Batch, BatchView};
use limen::types::{QoSClass, Ticks};

#[test]
fn caps_and_watermarks() {
    let caps = QueueCaps::new(8, 6, Some(100), Some(50));
    assert!(!caps.at_or_above_hard(7, 99));
    assert!(caps.at_or_above_hard(8, 0));
    assert!(caps.at_or_above_hard(0, 100));
    assert!(caps.at_or_above_soft(6, 0));
    assert!(caps.at_or_above_soft(0, 50));
    assert!(!caps.at_or_above_soft(5, 49));

    let p = EdgePolicy::new(caps, AdmissionPolicy::DropNewest, OverBudgetAction::Drop);
    assert_eq!(p.watermark(0, 0), WatermarkState::BelowSoft);
    assert_eq!(p.watermark(6, 0), WatermarkState::BetweenSoftAndHard);
    assert_eq!(p.watermark(8, 0), WatermarkState::AtOrAboveHard);
    assert!(!WatermarkState::BelowSoft.under_pressure());
    assert!(WatermarkState::BetweenSoftAndHard.under_pressure());
    assert!(WatermarkState::AtOrAboveHard.under_pressure());
}

#[test]
fn admission_decisions_by_policy() {
    let caps = QueueCaps::new(4, 2, None, None);
    let newest = EdgePolicy::new(caps, AdmissionPolicy::DropNewest, OverBudgetAction::Drop);
    let oldest = EdgePolicy::new(caps, AdmissionPolicy::DropOldest, OverBudgetAction::Drop);
    let block = EdgePolicy::new(caps, AdmissionPolicy::Block, OverBudgetAction::Drop);
    let aware_drop = EdgePolicy::new(caps, AdmissionPolicy::DeadlineAndQoSAware, OverBudgetAction::Drop);
    let aware_skip = EdgePolicy::new(caps, AdmissionPolicy::DeadlineAndQoSAware, OverBudgetAction::SkipStage);

    assert_eq!(newest.decide(1, 0, QoSClass::Standard), AdmissionDecision::Admit);
    assert_eq!(newest.decide(3, 0, QoSClass::Standard), AdmissionDecision::Admit);
    assert_eq!(newest.decide(4, 0, QoSClass::Standard), AdmissionDecision::DropNewest);
    assert_eq!(oldest.decide(3, 0, QoSClass::Standard), AdmissionDecision::Evict(1));
    assert_eq!(oldest.decide(4, 0, QoSClass::Standard), AdmissionDecision::EvictUntilBelowHard);
    assert_eq!(block.decide(4, 0, QoSClass::Standard), AdmissionDecision::Block);
    assert_eq!(aware_drop.decide(4, 0, QoSClass::BestEffort), AdmissionDecision::DropNewest);
    assert_eq!(aware_skip.decide(4, 0, QoSClass::BestEffort), AdmissionDecision::Reject);
    assert_eq!(aware_skip.decide(4, 0, QoSClass::LatencyCritical), AdmissionDecision::EvictUntilBelowHard);
}

#[test]
fn batching_policy_caps() {
    let p = BatchingPolicy::fixed(3);
    assert_eq!(*p.fixed_n(), Some(3));
    assert_eq!(*p.max_delta_t(), None);
    assert_eq!(p.window_kind(), WindowKind::Disjoint);
    assert_eq!(p.effective_fixed(), Some(3));
    let none = BatchingPolicy::new(None, None, WindowKind::Disjoint);
    assert_eq!(none.effective_fixed(), Some(1));
    let aged = BatchingPolicy::new(None, Some(Ticks::new(5)), WindowKind::Sliding(SlidingWindow::new(4, 2)));
    assert_eq!(aged.effective_fixed(), None);
    assert_eq!(*SlidingWindow::new(4, 2).size(), 4);
    assert_eq!(*SlidingWindow::new(4, 2).stride(), 2);
    assert_eq!(apply_fixed(Some(2), 5), 2);
    assert_eq!(apply_fixed(Some(9), 5), 5);
    assert_eq!(apply_fixed(None, 5), 5);
    assert_eq!(min_usize(3, 7), 3);
}

#[test]
fn ticks_and_headers() {
    assert_eq!(Ticks::new(10).saturating_sub(Ticks::new(4)), Ticks::new(6));
    assert_eq!(Ticks::new(4).saturating_sub(Ticks::new(10)), Ticks::new(0));
    let mut h = MessageHeader::empty();
    assert_eq!(*h.qos(), QoSClass::Standard);
    assert_eq!(*h.deadline_ns(), None);
    h.set_deadline_ns(Some(99));
    h.set_first_in_batch();
    assert!(h.flags().is_first());
    assert!(!h.flags().is_last());
    assert_eq!(*h.deadline_ns(), Some(99));
    let m = Message::new(h, 7u64);
    assert_eq!(*m.header().payload_size_bytes(), 8);
    assert_eq!(*Message::new(MessageHeader::empty(), ()).header().payload_size_bytes(), 0);
}

#[test]
fn payload_descriptors() {
    assert_eq!(5u32.buffer_descriptor(), BufferDescriptor::new(4, MemoryClass::Host));
    assert_eq!(*1u8.buffer_descriptor().bytes(), 1);
    assert_eq!(*2u16.buffer_descriptor().bytes(), 2);
    let arr = [Message::new(MessageHeader::empty(), 1u32), Message::new(MessageHeader::empty(), 2u32)];
    let b = Batch::new(&arr);
    let expected = 8 + 2 * core::mem::size_of::<MessageHeader>();
    assert_eq!(*b.buffer_descriptor().bytes(), expected);
    assert_eq!(*(&b).buffer_descriptor().bytes(), expected);
    let bv = BatchView::from_owned(vec![Message::new(MessageHeader::empty(), 1u32)]);
    assert_eq!(*bv.buffer_descriptor().bytes(), 4 + core::mem::size_of::<MessageHeader>());
}
