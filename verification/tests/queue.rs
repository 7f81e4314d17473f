use vsock::{RxOps, RxQueue};

#[test]
fn new_queue_is_empty() {
    let mut q = RxQueue::new();
    assert!(!q.pending_rx());
    assert_eq!(q.peek(), None);
    assert_eq!(q.dequeue(), None);
    assert!(!q.contains(RxOps::Request));
    assert_eq!(q, RxQueue::new());
}

#[test]
fn enqueue_twice_yields_once() {
    let mut q = RxQueue::new();
    q.enqueue(RxOps::CreditUpdate);
    q.enqueue(RxOps::CreditUpdate);
    assert!(q.pending_rx());
    assert_eq!(q.dequeue(), Some(RxOps::CreditUpdate));
    assert!(!q.pending_rx());
    assert_eq!(q.dequeue(), None);
}

#[test]
fn dequeue_follows_order_of_first_enqueue() {
    let mut q = RxQueue::new();
    q.enqueue(RxOps::Reset);
    q.enqueue(RxOps::Rw);
    q.enqueue(RxOps::Request);
    q.enqueue(RxOps::Rw);
    q.enqueue(RxOps::Response);
    q.enqueue(RxOps::Reset);
    q.enqueue(RxOps::CreditUpdate);
    assert_eq!(q.dequeue(), Some(RxOps::Reset));
    assert_eq!(q.dequeue(), Some(RxOps::Rw));
    assert_eq!(q.dequeue(), Some(RxOps::Request));
    assert_eq!(q.dequeue(), Some(RxOps::Response));
    assert_eq!(q.dequeue(), Some(RxOps::CreditUpdate));
    assert_eq!(q.dequeue(), None);
}

#[test]
fn peek_leaves_the_queue_alone() {
    let mut q = RxQueue::new();
    q.enqueue(RxOps::Response);
    q.enqueue(RxOps::Rw);
    assert_eq!(q.peek(), Some(RxOps::Response));
    assert_eq!(q.peek(), Some(RxOps::Response));
    assert_eq!(q.dequeue(), Some(RxOps::Response));
    assert_eq!(q.peek(), Some(RxOps::Rw));
}

#[test]
fn contains_tells_what_is_pending() {
    let mut q = RxQueue::new();
    q.enqueue(RxOps::Rw);
    q.enqueue(RxOps::Reset);
    assert!(q.contains(RxOps::Rw));
    assert!(q.contains(RxOps::Reset));
    assert!(!q.contains(RxOps::Request));
    assert!(!q.contains(RxOps::Response));
    assert!(!q.contains(RxOps::CreditUpdate));
    assert_eq!(q.dequeue(), Some(RxOps::Rw));
    assert!(!q.contains(RxOps::Rw));
    assert!(q.contains(RxOps::Reset));
}

#[test]
fn dequeued_operation_can_be_enqueued_again() {
    let mut q = RxQueue::new();
    q.enqueue(RxOps::Rw);
    q.enqueue(RxOps::CreditUpdate);
    assert_eq!(q.dequeue(), Some(RxOps::Rw));
    q.enqueue(RxOps::Rw);
    assert_eq!(q.dequeue(), Some(RxOps::CreditUpdate));
    assert_eq!(q.dequeue(), Some(RxOps::Rw));
    assert!(!q.pending_rx());
}

#[test]
fn queues_with_the_same_order_are_equal() {
    let mut a = RxQueue::new();
    let mut b = RxQueue::new();
    a.enqueue(RxOps::Rw);
    a.enqueue(RxOps::Reset);
    b.enqueue(RxOps::Rw);
    assert_ne!(a, b);
    b.enqueue(RxOps::Reset);
    b.enqueue(RxOps::Rw);
    assert_eq!(a, b);
}
