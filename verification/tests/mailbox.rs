//! The frame mailbox observed from outside: overwrite semantics, at-most-one
//! delivery, and clearing.

use bigeye::mailbox::FrameMailbox;

#[test]
fn overwrite_delivers_latest() {
    let mut m = FrameMailbox::new();
    m.put(vec![0xAA, 0x01]);
    m.put(vec![0xBB, 0x02]);
    assert_eq!(m.take(), Some(vec![0xBB, 0x02]));
    assert_eq!(m.take(), None);
}

#[test]
fn take_clears_the_slot() {
    let mut m = FrameMailbox::new();
    m.put(vec![1, 2, 3]);
    assert_eq!(m.take(), Some(vec![1, 2, 3]));
    assert_eq!(m.take(), None);
    assert_eq!(m.take(), None);
}

#[test]
fn at_most_one_delivery_per_arrival() {
    let mut m = FrameMailbox::new();
    m.put(vec![10]);
    assert_eq!(m.take(), Some(vec![10]));
    assert_eq!(m.take(), None);
    m.put(vec![20]);
    m.put(vec![30]);
    assert_eq!(m.take(), Some(vec![30]));
    assert_eq!(m.take(), None);
    m.put(vec![40]);
    assert_eq!(m.take(), Some(vec![40]));
    assert_eq!(m.take(), None);
}

#[test]
fn clear_discards_pending_frame() {
    let mut m = FrameMailbox::new();
    m.put(vec![7, 7, 7]);
    assert!(!m.is_empty());
    m.clear();
    assert!(m.is_empty());
    assert_eq!(m.take(), None);
}

#[test]
fn fresh_mailbox_is_empty() {
    let mut m = FrameMailbox::new();
    assert!(m.is_empty());
    assert_eq!(m.take(), None);
}

#[test]
fn same_bytes_twice_are_two_arrivals() {
    let mut m = FrameMailbox::new();
    m.put(vec![5]);
    assert_eq!(m.take(), Some(vec![5]));
    m.put(vec![5]);
    assert_eq!(m.take(), Some(vec![5]));
    assert_eq!(m.take(), None);
}
