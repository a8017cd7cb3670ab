use workpool::channel::Channel;
use workpool::channel::DequeueResult;
use workpool::PoolError;

#[test]
fn fifo_dequeue_order() {
    let mut ch = Channel::<u32>::new();
    assert!(ch.enqueue(1).is_ok());
    assert!(ch.enqueue(2).is_ok());
    assert!(ch.enqueue(3).is_ok());
    assert_eq!(ch.pending_len(), 3);
    assert!(matches!(ch.dequeue(), DequeueResult::Task(1)));
    assert!(matches!(ch.dequeue(), DequeueResult::Task(2)));
    assert_eq!(ch.pending_len(), 1);
}

#[test]
fn dequeue_on_empty_open_channel_waits() {
    let mut ch = Channel::<u32>::new();
    assert!(matches!(ch.dequeue(), DequeueResult::Empty));
    assert!(ch.is_open_now());
    assert_eq!(ch.pending_len(), 0);
}

#[test]
fn enqueue_after_close_rejected() {
    let mut ch = Channel::<u32>::new();
    ch.close();
    let r = ch.enqueue(5);
    assert_eq!(r, Err(PoolError::ChannelClosed));
    assert_eq!(ch.pending_len(), 0);
}

#[test]
fn pending_tasks_survive_close() {
    // Tasks enqueued before closure are still delivered: the closed signal is
    // observed only once the queue is drained, and is then terminal.
    let mut ch = Channel::<u32>::new();
    ch.enqueue(1).unwrap();
    ch.enqueue(2).unwrap();
    ch.close();
    assert!(matches!(ch.dequeue(), DequeueResult::Task(1)));
    assert!(matches!(ch.dequeue(), DequeueResult::Task(2)));
    assert!(matches!(ch.dequeue(), DequeueResult::Closed));
    assert!(matches!(ch.dequeue(), DequeueResult::Closed));
}
