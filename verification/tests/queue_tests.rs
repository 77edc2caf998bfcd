use anchor_kit::queue::Queue;

#[test]
fn new_queue_is_empty() {
    let q: Queue<u32> = Queue::new();
    assert!(q.is_empty());
    assert_eq!(q.len(), 0);
    assert_eq!(q.peek(), None);
    assert!(q.to_vec().is_empty());
}

#[test]
fn fifo_order() {
    let mut q = Queue::new();
    q.enqueue(1);
    q.enqueue(2);
    q.enqueue(3);
    assert_eq!(q.len(), 3);
    assert_eq!(q.dequeue(), Some(1));
    assert_eq!(q.dequeue(), Some(2));
    assert_eq!(q.dequeue(), Some(3));
    assert_eq!(q.dequeue(), None);
    assert!(q.is_empty());
}

#[test]
fn peek_shows_next_dequeued_and_keeps_it() {
    let mut q = Queue::new();
    q.enqueue("a");
    q.enqueue("b");
    assert_eq!(q.peek(), Some(&"a"));
    assert_eq!(q.len(), 2);
    assert_eq!(q.peek_back(), Some(&"b"));
    assert_eq!(q.dequeue(), Some("a"));
    assert_eq!(q.peek(), Some(&"b"));
}

#[test]
fn enqueue_dequeue_commute_on_non_empty() {
    let mut a = Queue::new();
    a.enqueue(10);
    a.enqueue(20);
    let first_a = a.dequeue();
    a.enqueue(30);

    let mut b = Queue::new();
    b.enqueue(10);
    b.enqueue(20);
    b.enqueue(30);
    let first_b = b.dequeue();

    assert_eq!(first_a, first_b);
    assert_eq!(a.to_vec(), b.to_vec());
}

#[test]
fn enqueue_into_empty_then_dequeue() {
    let mut q = Queue::new();
    q.enqueue(7u8);
    assert_eq!(q.dequeue(), Some(7));
    assert!(q.is_empty());
}

#[test]
fn dequeue_on_empty_leaves_it_empty() {
    let mut q: Queue<i64> = Queue::new();
    assert_eq!(q.dequeue(), None);
    assert_eq!(q.len(), 0);
    assert_eq!(q.peek_back(), None);
}

#[test]
fn to_vec_lists_front_first() {
    let mut q = Queue::new();
    for i in 0..5 {
        q.enqueue(i);
    }
    let all: Vec<i32> = q.to_vec().into_iter().copied().collect();
    assert_eq!(all, vec![0, 1, 2, 3, 4]);
}

#[test]
fn default_queue_is_empty() {
    let q: Queue<u8> = Queue::default();
    assert!(q.is_empty());
}

#[test]
fn length_is_enqueues_minus_served_dequeues() {
    let mut q = Queue::new();
    let mut enqueues = 0;
    let mut served = 0;
    for step in 0..20u32 {
        if step % 3 == 2 || step % 7 == 0 {
            if q.dequeue().is_some() {
                served += 1;
            }
        } else {
            q.enqueue(step);
            enqueues += 1;
        }
        assert_eq!(q.len(), enqueues - served);
        assert_eq!(q.to_vec().len(), q.len());
    }
    while q.dequeue().is_some() {
        served += 1;
    }
    assert_eq!(enqueues, served);
    assert_eq!(q.dequeue(), None);
}
