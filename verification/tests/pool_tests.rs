//! The thread pool, driven deterministically: the spawner under test
//! control hands the consumption handles back instead of starting
//! threads, and the worker loop is then run to exhaustion by hand.

use bookwork::pool::{worker_func, worker_step, Job, JobError, ThreadPool,
    ThreadPoolBuildError, ThreadPoolError};
use bookwork::queue::SharedReceiver;
use std::cell::{Cell, RefCell};
use std::rc::Rc;
use std::sync::mpsc;

/// A job that reports its id on a channel and then succeeds or fails as
/// told.
#[derive(Debug)]
struct TestJob {
    id: u64,
    tx: mpsc::Sender<u64>,
    fail: bool,
}

impl Job for TestJob {
    fn run(self) -> Result<(), JobError> {
        self.tx.send(self.id).unwrap();
        if self.fail {
            Err(JobError { code: self.id })
        } else {
            Ok(())
        }
    }
}

/// A spawner that stashes each worker's consumption handle for the test
/// to drive, handing back the worker's id as its "thread handle".
fn stashing_spawner(
    stash: Rc<RefCell<Vec<SharedReceiver<TestJob>>>>,
) -> impl Fn(usize, SharedReceiver<TestJob>) -> Option<usize> {
    move |id, rx| {
        stash.borrow_mut().push(rx);
        Some(id)
    }
}

#[test]
fn build_zero_is_a_config_error_and_spawns_nothing() {
    let spawned = Rc::new(Cell::new(0u32));
    let spawned_in = Rc::clone(&spawned);
    let pool: Result<ThreadPool<TestJob, usize>, _> = ThreadPool::build(0, move |_id, _rx| {
        spawned_in.set(spawned_in.get() + 1);
        Some(0usize)
    });
    assert!(matches!(pool, Err(ThreadPoolBuildError::ZeroThreadThreadPoolError)));
    assert_eq!(spawned.get(), 0);
}

#[test]
fn build_makes_exactly_size_workers() {
    let stash = Rc::new(RefCell::new(Vec::new()));
    let pool: ThreadPool<TestJob, usize> =
        ThreadPool::build(5, stashing_spawner(Rc::clone(&stash))).unwrap();
    assert_eq!(pool.worker_count(), 5);
    assert_eq!(stash.borrow().len(), 5);
}

#[test]
fn one_refused_spawn_fails_the_whole_build() {
    let pool: Result<ThreadPool<TestJob, usize>, _> = ThreadPool::build(3, |id, _rx| {
        if id < 2 {
            Some(id)
        } else {
            None
        }
    });
    assert!(matches!(pool, Err(ThreadPoolBuildError::WorkerError(_))));
}

#[test]
fn queued_jobs_survive_shutdown_and_all_run() {
    let stash = Rc::new(RefCell::new(Vec::new()));
    let mut pool: ThreadPool<TestJob, usize> =
        ThreadPool::build(2, stashing_spawner(Rc::clone(&stash))).unwrap();

    let (tx, rx) = mpsc::channel();
    for id in 0..4u64 {
        pool.execute(TestJob { id, tx: tx.clone(), fail: false }).unwrap();
    }
    drop(tx);

    // One handle comes back per worker, in worker order.
    let handles = pool.shutdown();
    assert_eq!(handles, vec![0, 1]);

    // The queue is closed but not drained: run one worker's loop by hand.
    let worker_rx = &stash.borrow()[0];
    while worker_func(0, worker_rx) {}

    let mut seen: Vec<u64> = rx.iter().collect();
    seen.sort();
    assert_eq!(seen, vec![0, 1, 2, 3]);
}

#[test]
fn a_failing_job_does_not_stop_its_worker() {
    let stash = Rc::new(RefCell::new(Vec::new()));
    let mut pool: ThreadPool<TestJob, usize> =
        ThreadPool::build(1, stashing_spawner(Rc::clone(&stash))).unwrap();

    let (tx, rx) = mpsc::channel();
    pool.execute(TestJob { id: 7, tx: tx.clone(), fail: true }).unwrap();
    pool.execute(TestJob { id: 8, tx: tx.clone(), fail: false }).unwrap();
    drop(tx);
    let handles = pool.shutdown();
    assert_eq!(handles, vec![0]);

    let worker_rx = &stash.borrow()[0];
    // The failing job is taken, run, reported — and the loop asks to go on.
    assert!(worker_func(0, worker_rx));
    assert!(worker_func(0, worker_rx));
    assert!(!worker_func(0, worker_rx));

    let seen: Vec<u64> = rx.iter().collect();
    assert_eq!(seen, vec![7, 8]);
}

#[test]
fn submitting_after_shutdown_is_a_submission_error() {
    let stash = Rc::new(RefCell::new(Vec::new()));
    let mut pool: ThreadPool<TestJob, usize> =
        ThreadPool::build(1, stashing_spawner(Rc::clone(&stash))).unwrap();
    assert_eq!(pool.shutdown(), vec![0]);

    let (tx, _rx) = mpsc::channel();
    let res = pool.execute(TestJob { id: 1, tx, fail: false });
    assert!(matches!(res, Err(ThreadPoolError::InexistentJobSenderError)));

    // Tearing down twice is allowed: no handles are left to hand out.
    assert_eq!(pool.shutdown(), Vec::<usize>::new());
    assert_eq!(pool.worker_count(), 1);
}

#[test]
fn a_dropped_queue_hands_the_job_back() {
    // A spawner that drops every consumption handle leaves the queue
    // without a receiving end, so submission fails and the job returns.
    let pool: ThreadPool<TestJob, usize> =
        ThreadPool::build(1, |id, _rx| Some(id)).unwrap();
    let (tx, _rx) = mpsc::channel();
    let res = pool.execute(TestJob { id: 9, tx, fail: false });
    match res {
        Err(ThreadPoolError::JobTransmissionError(job)) => assert_eq!(job.id, 9),
        _ => panic!("expected the job back"),
    }
}

#[test]
fn a_step_goes_on_exactly_while_jobs_arrive() {
    let (tx, rx) = mpsc::channel();
    // A received job is run, failure and all, and the answer is "go on".
    assert!(worker_step(Ok(TestJob { id: 3, tx: tx.clone(), fail: true })));
    assert!(worker_step(Ok(TestJob { id: 4, tx: tx.clone(), fail: false })));
    assert_eq!(rx.try_recv(), Ok(3));
    assert_eq!(rx.try_recv(), Ok(4));
    // The closed-queue signal, and only it, stops the worker.
    assert!(!worker_step::<TestJob>(Err(())));
}
