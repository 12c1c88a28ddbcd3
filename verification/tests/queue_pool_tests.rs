use rust_comm::queue::FifoQueue;
use rust_comm::pool::WorkerPool;
use rust_comm::message::Message;

#[test]
fn fifo_preserves_a_single_producer_order() {
    // one producer enqueues 0..100 in order; dequeues return that order
    let mut q: FifoQueue<usize> = FifoQueue::new();
    for i in 0..100 {
        q.en_q(i);
    }
    assert_eq!(q.len(), 100);
    for i in 0..100 {
        assert_eq!(q.de_q(), Some(i));
    }
    assert_eq!(q.de_q(), None);
}

#[test]
fn drain_returns_enqueue_order() {
    let mut q: FifoQueue<&str> = FifoQueue::new();
    q.en_q("first");
    q.en_q("second");
    q.en_q("third");
    assert_eq!(q.drain(), vec!["first", "second", "third"]);
    assert!(q.is_empty());
}

#[test]
fn empty_dequeue_returns_none() {
    let mut q: FifoQueue<u8> = FifoQueue::new();
    assert!(q.is_empty());
    assert_eq!(q.de_q(), None);
    q.en_q(7);
    assert!(!q.is_empty());
    assert_eq!(q.len(), 1);
    assert_eq!(q.de_q(), Some(7));
}

#[test]
fn queue_carries_messages() {
    let mut q: FifoQueue<Message> = FifoQueue::new();
    q.en_q(Message::create_msg_bytes_fit(b"a"));
    q.en_q(Message::create_msg_bytes_fit(b"b"));
    let first = q.de_q().unwrap();
    let second = q.de_q().unwrap();
    assert_eq!(first.get_content_bytes(), b"a");
    assert_eq!(second.get_content_bytes(), b"b");
}

#[test]
fn pool_hands_out_work_in_post_order() {
    let mut pool: WorkerPool<u32> = WorkerPool::new(2);
    pool.post(10);
    pool.post(20);
    pool.post(30);
    assert_eq!(pool.begin_work(), Some(10));
    assert_eq!(pool.begin_work(), Some(20));
    // both workers are busy: the third item waits
    assert_eq!(pool.begin_work(), None);
    pool.finish_work();
    assert_eq!(pool.begin_work(), Some(30));
}

#[test]
fn pool_never_exceeds_its_worker_count() {
    // bounded concurrency: with 4 workers, at most 4 items are ever active
    let mut pool: WorkerPool<usize> = WorkerPool::new(4);
    for i in 0..100 {
        pool.post(i);
    }
    let mut handed = 0;
    while pool.begin_work().is_some() {
        handed += 1;
    }
    assert_eq!(handed, 4);
    assert_eq!(pool.active_count(), 4);
    for _ in 0..4 {
        pool.finish_work();
    }
    assert_eq!(pool.active_count(), 0);
    assert_eq!(pool.begin_work(), Some(4));
}

#[test]
fn stopped_pool_hands_out_nothing() {
    let mut pool: WorkerPool<u8> = WorkerPool::new(3);
    pool.post(1);
    assert!(pool.is_running());
    pool.stop();
    assert!(!pool.is_running());
    assert_eq!(pool.begin_work(), None);
}

#[test]
fn finish_without_active_work_changes_nothing() {
    let mut pool: WorkerPool<u8> = WorkerPool::new(1);
    pool.finish_work();
    assert_eq!(pool.active_count(), 0);
}
