use core::mem::size_of;
use limen::batch::{Batch, BatchView};
use limen::message::{Message, MessageHeader};

/// Helper: construct a Message<u32> with an empty header and given payload.
fn make_msg_u32(v: u32) -> Message<u32> {
    Message::new(MessageHeader::empty(), v)
}

#[test]
fn batch_basic_props() {
    let arr: [Message<u32>; 3] = [make_msg_u32(10), make_msg_u32(11), make_msg_u32(12)];

    let batch = Batch::new(&arr[..2]);
    assert_eq!(batch.len(), 2);
    assert!(!batch.is_empty());
    assert_eq!(batch.messages().len(), 2);

    assert_eq!(batch.total_payload_bytes(), 2 * size_of::<u32>());

    assert!(!batch.first_flagged());
    assert!(!batch.last_flagged());
}

#[test]
fn batchview_borrowed_basic_and_mutation() {
    let mut arr: [Message<u32>; 4] = [
        make_msg_u32(100),
        make_msg_u32(101),
        make_msg_u32(102),
        make_msg_u32(103),
    ];

    let mut bv = BatchView::from_borrowed(&mut arr, 3);
    assert_eq!(bv.len(), 3);
    assert!(!bv.is_empty());

    for (i, m) in bv.iter_mut().enumerate() {
        *m.payload_mut() = 200 + (i as u32);
    }

    let batch = bv.as_batch();
    let mut vals = [0u32; 3];
    let mut i = 0;
    for m in batch.iter() {
        vals[i] = *m.payload();
        i += 1;
    }
    assert_eq!(vals, [200u32, 201u32, 202u32]);

    {
        let fh = bv.first_header_mut().expect("first header");
        fh.set_first_in_batch();
        let lh = bv.last_header_mut().expect("last header");
        lh.set_last_in_batch();
    }

    let batch2 = bv.as_batch();
    assert!(batch2.first_flagged());
    assert!(batch2.last_flagged());
}

#[test]
fn batchview_owned_basic_and_into_owned() {
    let mut vec: Vec<Message<u32>> = Vec::new();
    vec.push(make_msg_u32(1));
    vec.push(make_msg_u32(2));
    vec.push(make_msg_u32(3));

    let mut bv = BatchView::from_owned(vec);
    assert_eq!(bv.len(), 3);
    assert!(!bv.is_empty());

    for (i, m) in bv.iter_mut().enumerate() {
        if i == 2 {
            *m.payload_mut() = 42u32;
        }
    }

    let batch = bv.as_batch();
    let mut xs: Vec<u32> = Vec::new();
    for m in batch.iter() {
        xs.push(*m.payload());
    }
    assert_eq!(xs.as_slice(), &[1u32, 2u32, 42u32]);

    {
        let fh = bv.first_header_mut().expect("first header");
        fh.set_first_in_batch();
        let lh = bv.last_header_mut().expect("last header");
        lh.set_last_in_batch();
    }
    let batch2 = bv.as_batch();
    assert!(batch2.first_flagged());
    assert!(batch2.last_flagged());

    let ov = bv.into_owned_vec().expect("owned vec present");
    assert_eq!(ov.len(), 3);
    assert_eq!(*ov.last().unwrap().payload(), 42u32);
}

#[test]
fn batch_assert_flags_consistent_no_panic_when_correct() {
    let mut arr: [Message<u32>; 2] = [make_msg_u32(7), make_msg_u32(8)];

    {
        let mut bv = BatchView::from_borrowed(&mut arr, 2);
        bv.first_header_mut().unwrap().set_first_in_batch();
        bv.last_header_mut().unwrap().set_last_in_batch();
        let batch = bv.as_batch();
        batch.assert_flags_consistent();
    }
}

#[test]
fn one_message_batch_flags_are_checked() {
    let mut arr = [make_msg_u32(7)];
    let mut bv = BatchView::from_borrowed(&mut arr, 1);
    bv.first_header_mut().unwrap().set_first_in_batch();
    bv.last_header_mut().unwrap().set_last_in_batch();
    let batch = bv.as_batch();
    assert!(batch.first_flagged());
    assert!(batch.last_flagged());
    batch.assert_flags_consistent();
}

#[test]
fn iter_mut_edits_only_the_batch_prefix() {
    let mut arr = [make_msg_u32(100), make_msg_u32(101), make_msg_u32(102), make_msg_u32(103)];
    {
        let mut bv = BatchView::from_borrowed(&mut arr, 3);
        let mut seen = 0u32;
        for (i, m) in bv.iter_mut().enumerate() {
            *m.payload_mut() = 200 + i as u32;
            seen += 1;
        }
        assert_eq!(seen, 3);
        let payloads: Vec<u32> = bv.as_batch().iter().map(|m| *m.payload()).collect();
        assert_eq!(payloads, vec![200, 201, 202]);
    }
    assert_eq!(*arr[3].payload(), 103);
}

#[test]
fn borrowed_view_leaves_its_buffer_unchanged() {
    let mut arr = [make_msg_u32(1), make_msg_u32(2), make_msg_u32(3)];
    {
        let bv = BatchView::from_borrowed(&mut arr, 2);
        assert_eq!(bv.len(), 2);
        assert!(bv.into_owned_vec().is_none());
    }
    let payloads: Vec<u32> = arr.iter().map(|m| *m.payload()).collect();
    assert_eq!(payloads, vec![1, 2, 3]);
}

#[test]
fn owned_view_stays_owned_after_header_edits() {
    let mut bv = BatchView::from_owned(vec![make_msg_u32(1), make_msg_u32(2)]);
    bv.first_header_mut().unwrap().set_first_in_batch();
    bv.last_header_mut().unwrap().set_last_in_batch();
    let v = bv.into_owned_vec().unwrap();
    assert!(v[0].header().flags().is_first());
    assert!(v[1].header().flags().is_last());
}
