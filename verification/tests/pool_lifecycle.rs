use workpool::pool::Pool;
use workpool::pool::WorkerAction;
use workpool::pool::WorkerState;
use workpool::PoolError;
use workpool::TaskOutcome;

#[test]
fn new_zero_workers_rejected() {
    let r = Pool::<u32>::new(0);
    assert!(matches!(r, Err(PoolError::InvalidConfiguration)));
}

#[test]
fn new_positive_worker_count() {
    let pool = Pool::<u32>::new(3).unwrap();
    assert_eq!(pool.num_workers(), 3);
    assert!(pool.is_accepting());
    assert_eq!(pool.pending_len(), 0);
    for i in 0..3 {
        assert_eq!(pool.worker_state(i), Some(WorkerState::Ready));
    }
    assert_eq!(pool.worker_state(3), None);
}

#[test]
fn all_tasks_drained_exactly_once_in_order() {
    let mut pool = Pool::<u32>::new(3).unwrap();
    for i in 0..10 {
        assert!(pool.submit(i).is_ok());
    }
    let drained = pool.shutdown();
    let expected: Vec<u32> = (0..10).collect();
    assert_eq!(drained, expected);
    assert_eq!(pool.pending_len(), 0);
    assert!(!pool.is_accepting());
}

#[test]
fn submit_after_shutdown_fails_without_side_effect() {
    let mut pool = Pool::<u32>::new(2).unwrap();
    assert!(pool.submit(1).is_ok());
    let drained = pool.shutdown();
    assert_eq!(drained, vec![1]);
    let late = pool.submit(2);
    assert_eq!(late, Err(PoolError::ChannelClosed));
    assert_eq!(pool.pending_len(), 0);
    let nothing = pool.shutdown();
    assert!(nothing.is_empty());
}

#[test]
fn single_worker_runs_in_submission_order() {
    let mut pool = Pool::<&str>::new(1).unwrap();
    pool.submit("a").unwrap();
    pool.submit("b").unwrap();
    pool.submit("c").unwrap();
    pool.close();
    let mut ran: Vec<&str> = Vec::new();
    loop {
        match pool.worker_step(0) {
            WorkerAction::Run(task) => {
                ran.push(task);
                pool.finish_task(0, TaskOutcome::Completed);
            }
            WorkerAction::Park => unreachable!("channel is closed"),
            WorkerAction::Exit => break,
        }
    }
    assert_eq!(ran, vec!["a", "b", "c"]);
    assert_eq!(pool.worker_state(0), Some(WorkerState::Stopped));
}

#[test]
fn failed_task_does_not_stop_worker() {
    let mut pool = Pool::<u32>::new(1).unwrap();
    pool.submit(1).unwrap();
    pool.submit(2).unwrap();
    match pool.worker_step(0) {
        WorkerAction::Run(task) => {
            assert_eq!(task, 1);
            pool.finish_task(0, TaskOutcome::Failed);
        }
        _ => panic!("expected a task"),
    }
    assert_eq!(pool.worker_state(0), Some(WorkerState::Ready));
    assert_eq!(pool.failure_total(), 1);
    match pool.worker_step(0) {
        WorkerAction::Run(task) => {
            assert_eq!(task, 2);
            pool.finish_task(0, TaskOutcome::Completed);
        }
        _ => panic!("the failure must not block the next task"),
    }
    let drained = pool.shutdown();
    assert!(drained.is_empty());
    assert_eq!(pool.failure_total(), 1);
}

#[test]
fn workers_park_while_queue_empty_and_open() {
    let mut pool = Pool::<u32>::new(2).unwrap();
    assert!(matches!(pool.worker_step(0), WorkerAction::Park));
    assert!(matches!(pool.worker_step(1), WorkerAction::Park));
    assert_eq!(pool.worker_state(0), Some(WorkerState::Ready));
    assert_eq!(pool.worker_state(1), Some(WorkerState::Ready));
    assert!(pool.is_accepting());
}

#[test]
fn two_workers_claim_distinct_tasks() {
    let mut pool = Pool::<u32>::new(2).unwrap();
    pool.submit(7).unwrap();
    pool.submit(8).unwrap();
    let first = match pool.worker_step(0) {
        WorkerAction::Run(task) => task,
        _ => panic!("expected a task"),
    };
    let second = match pool.worker_step(1) {
        WorkerAction::Run(task) => task,
        _ => panic!("expected a task"),
    };
    assert_ne!(first, second);
    assert_eq!(first, 7);
    assert_eq!(second, 8);
    assert_eq!(pool.worker_state(0), Some(WorkerState::Busy));
    assert_eq!(pool.worker_state(1), Some(WorkerState::Busy));
    pool.finish_task(0, TaskOutcome::Completed);
    pool.finish_task(1, TaskOutcome::Completed);
    pool.close();
    assert!(matches!(pool.worker_step(0), WorkerAction::Exit));
    assert!(matches!(pool.worker_step(1), WorkerAction::Exit));
}

#[test]
fn sixteen_tasks_ten_workers_all_run() {
    // One slow task and fifteen fast ones across ten workers: all sixteen
    // must run, the slow one exactly once.
    let slow: u32 = 1000;
    let mut pool = Pool::<u32>::new(10).unwrap();
    pool.submit(slow).unwrap();
    for i in 0..15 {
        pool.submit(i).unwrap();
    }
    let mut ran: Vec<u32> = Vec::new();
    // Every worker claims one task; the slow task is still running on worker
    // 0 while the others finish and claim more.
    for w in 0..10 {
        match pool.worker_step(w) {
            WorkerAction::Run(task) => ran.push(task),
            _ => panic!("sixteen tasks are pending"),
        }
    }
    for w in 1..10 {
        pool.finish_task(w, TaskOutcome::Completed);
    }
    for w in 1..7 {
        match pool.worker_step(w) {
            WorkerAction::Run(task) => {
                ran.push(task);
                pool.finish_task(w, TaskOutcome::Completed);
            }
            _ => panic!("six tasks are still pending"),
        }
    }
    // The slow task finishes only now.
    pool.finish_task(0, TaskOutcome::Completed);
    let drained = pool.shutdown();
    ran.extend(drained);
    ran.sort();
    let mut expected: Vec<u32> = (0..15).collect();
    expected.push(slow);
    assert_eq!(ran, expected);
    assert_eq!(ran.iter().filter(|&&t| t == slow).count(), 1);
}

#[test]
fn failure_total_counts_every_failure() {
    let mut pool = Pool::<u32>::new(1).unwrap();
    for i in 0..3 {
        pool.submit(i).unwrap();
    }
    for _ in 0..3 {
        match pool.worker_step(0) {
            WorkerAction::Run(_) => pool.finish_task(0, TaskOutcome::Failed),
            _ => panic!("expected a task"),
        }
    }
    assert_eq!(pool.failure_total(), 3);
    // Shutdown completes regardless of how many executions failed.
    let drained = pool.shutdown();
    assert!(drained.is_empty());
    assert_eq!(pool.worker_state(0), Some(WorkerState::Stopped));
}
