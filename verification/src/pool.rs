//! A fixed-size thread pool. [`ThreadPool::build`] validates the size and
//! sets the workers up, [`ThreadPool::execute`] submits one job, and
//! [`ThreadPool::shutdown`] closes the queue and retires every worker.
//!
//! The verifier admits no thread primitive, so the pool does not start or
//! join threads itself: the caller hands `build` a `spawner` that starts a
//! background thread running [`worker_func`] on the given consumption
//! handle and returns its handle of type `H`, and hands `shutdown` a
//! `joiner` that waits for one handle. The pool owns everything else: the
//! queue, the worker records, and the one ordering that matters — the
//! submission handle is dropped *before* any handle is joined, or a worker
//! still blocked on the queue would never exit and teardown would hang.

use vstd::prelude::*;
use crate::queue::{SharedReceiver, clone_shared, job_channel, recv_job, send_job, share_receiver};

verus! {

/// The failure value a job may report. A job that reports failure is
/// simply left behind; it never stops its worker.
#[derive(Debug, PartialEq, Eq, Structural)]
pub struct JobError {
    pub code: u64,
}

/// A one-shot unit of work: consumed exactly once by the worker that
/// takes it, reporting success or a failure value. Implemented by the
/// pool's callers; the pool promises nothing of what `run` computes.
pub trait Job: Sized {
    fn run(self) -> Result<(), JobError>;
}

/// Errors from [`Worker::build`].
#[derive(Debug)]
pub enum WorkerBuildError {
    /// The spawner could not start the worker's thread (the OS refused).
    ThreadCreationError,
}

/// Errors from [`ThreadPool::build`].
#[derive(Debug)]
pub enum ThreadPoolBuildError {
    /// A pool of zero workers was requested; nothing was allocated.
    ZeroThreadThreadPoolError,
    /// A worker could not be built, so the whole construction fails.
    WorkerError(WorkerBuildError),
}

/// Errors from [`ThreadPool::execute`].
#[derive(Debug)]
pub enum ThreadPoolError<J> {
    /// The pool no longer holds its submission handle: teardown has begun.
    InexistentJobSenderError,
    /// The channel refused the job; it comes back to the caller unrun.
    JobTransmissionError(J),
}

/// One worker: its unique id and, while it is live, the handle of the
/// background thread the spawner started for it.
pub struct Worker<H> {
    id: usize,
    handle: Option<H>,
}

/// The worker's whole decision, given what the queue handed over: a job
/// is run — its reported failure notwithstanding — and the worker goes
/// round again; the closed-and-drained signal, and only that, stops it.
pub fn worker_step<J: Job>(msg: Result<J, ()>) -> (keep_running: bool)
    ensures
        keep_running == (msg is Ok),
{
    match msg {
        Err(_) => {
            // The queue is closed and empty: this worker is done.
            false
        },
        Ok(job) => {
            let _ = job.run();
            true
        },
    }
}

/// One turn of a worker's loop: block until the queue answers, then act
/// on the answer through [`worker_step`], whose contract ties the result
/// to it — `true` exactly when a job arrived and was run, `false`
/// exactly on queue closure. The verifier demands a termination measure
/// of every loop, and the queue may stay open arbitrarily long, so the
/// loop itself belongs to the thread the spawner starts:
/// `while worker_func(id, &rx) {}`.
#[allow(unused_variables)]
pub fn worker_func<J: Job>(id: usize, job_receiver: &SharedReceiver<J>) -> (keep_running: bool) {
    worker_step(recv_job(job_receiver))
}

impl<H> Worker<H> {
    /// The id the pool assigned this worker.
    pub closed spec fn spec_id(&self) -> int {
        self.id as int
    }

    /// The thread handle the worker still owns, if any.
    pub closed spec fn spec_handle(&self) -> Option<H> {
        self.handle
    }

    /// Whether the worker still owns its thread handle (not yet retired).
    pub closed spec fn is_live(&self) -> bool {
        self.handle is Some
    }

    /// Build one worker: ask the spawner for a thread on the shared
    /// consumption handle. A spawner that returns `None` could not start
    /// the thread, and the worker never becomes live; so long as the
    /// spawner always returns a handle, construction succeeds.
    pub fn build<J, F>(
        id: usize,
        job_receiver: SharedReceiver<J>,
        spawner: &F,
    ) -> (r: Result<Worker<H>, WorkerBuildError>) where
        J: Job + Send + 'static,
        F: Fn(usize, SharedReceiver<J>) -> Option<H>,

        requires
            call_requires(*spawner, (id, job_receiver)),
        ensures
            (r matches Ok(w) ==> w.spec_id() == id && w.is_live()),
            (r matches Err(e) ==> e is ThreadCreationError),
            (forall|a: (usize, SharedReceiver<J>), ret: Option<H>|
                call_ensures(*spawner, a, ret) ==> ret is Some) ==> r is Ok,
            (forall|a: (usize, SharedReceiver<J>), ret: Option<H>|
                call_ensures(*spawner, a, ret) ==> ret is None) ==> r is Err,
    {
        match spawner(id, job_receiver) {
            Some(handle) => Ok(Worker { id, handle: Some(handle) }),
            None => Err(WorkerBuildError::ThreadCreationError),
        }
    }
}

/// A fixed set of workers and the sending half of the job queue.
#[verifier::reject_recursive_types(J)]
#[verifier::reject_recursive_types(H)]
pub struct ThreadPool<J, H> {
    workers: Vec<Worker<H>>,
    job_sender: Option<std::sync::mpsc::Sender<J>>,
}

/// The handles these workers still hold, in worker order.
pub open spec fn spec_live_handles<H>(workers: Seq<Worker<H>>) -> Seq<H>
    decreases workers.len(),
{
    if workers.len() == 0 {
        Seq::<H>::empty()
    } else if workers.last().spec_handle() is Some {
        spec_live_handles(workers.drop_last()).push(workers.last().spec_handle()->0)
    } else {
        spec_live_handles(workers.drop_last())
    }
}

impl<J: Job + Send + 'static, H> ThreadPool<J, H> {
    /// The worker records themselves, for contracts that speak of their
    /// handles.
    pub closed spec fn spec_workers(&self) -> Seq<Worker<H>> {
        self.workers@
    }

    /// Whether the pool still holds its submission handle: true from
    /// construction until teardown begins.
    pub closed spec fn accepting(&self) -> bool {
        self.job_sender is Some
    }

    /// The number of workers, fixed at construction.
    pub closed spec fn spec_size(&self) -> nat {
        self.workers@.len()
    }

    /// Each worker carries its index as its id, so ids are unique.
    pub closed spec fn wf(&self) -> bool {
        forall|i: int|
            0 <= i < self.workers@.len() ==> (#[trigger] self.workers@[i]).spec_id() == i
    }

    /// Every worker still owns its thread handle.
    pub closed spec fn all_live(&self) -> bool {
        forall|i: int| 0 <= i < self.workers@.len() ==> (#[trigger] self.workers@[i]).is_live()
    }

    /// Every worker has been retired.
    pub closed spec fn all_stopped(&self) -> bool {
        forall|i: int| 0 <= i < self.workers@.len() ==> !(#[trigger] self.workers@[i]).is_live()
    }

    /// Build a pool of exactly `size` workers, all sharing one consumption
    /// handle, each spawned by the caller's `spawner` (expected to start a
    /// thread running [`worker_func`] and return its handle). A size of
    /// zero is a configuration error, rejected before anything is
    /// allocated or spawned. If any one spawn fails, the whole
    /// construction fails with that worker's error; if the spawner cannot
    /// fail, a pool of any size of at least one is returned whole,
    /// accepting work, with its workers live and numbered `0..size`.
    pub fn build<F>(size: usize, spawner: F) -> (r: Result<
        ThreadPool<J, H>,
        ThreadPoolBuildError,
    >) where F: Fn(usize, SharedReceiver<J>) -> Option<H>
        requires
            forall|id: usize, rx: SharedReceiver<J>| call_requires(spawner, (id, rx)),
        ensures
            size == 0 <==> r matches Err(ThreadPoolBuildError::ZeroThreadThreadPoolError),
            (r matches Ok(p) ==> p.wf() && p.all_live() && p.accepting() && p.spec_size() == size),
            (r matches Err(ThreadPoolBuildError::WorkerError(e)) ==> e is ThreadCreationError),
            (size >= 1 && (forall|a: (usize, SharedReceiver<J>), ret: Option<H>|
                call_ensures(spawner, a, ret) ==> ret is Some)) ==> r is Ok,
            (size >= 1 && (forall|a: (usize, SharedReceiver<J>), ret: Option<H>|
                call_ensures(spawner, a, ret) ==> ret is None)) ==> (r matches Err(
                ThreadPoolBuildError::WorkerError(e),
            ) && e is ThreadCreationError),
    {
        if size == 0 {
            return Err(ThreadPoolBuildError::ZeroThreadThreadPoolError);
        }
        let (job_sender, job_receiver) = job_channel::<J>();
        let job_receiver = share_receiver(job_receiver);
        let mut workers: Vec<Worker<H>> = Vec::new();
        let mut n: usize = 0;
        while n < size
            invariant
                n <= size,
                workers@.len() == n,
                forall|i: int|
                    0 <= i < n ==> (#[trigger] workers@[i]).spec_id() == i
                        && workers@[i].is_live(),
                forall|id: usize, rx: SharedReceiver<J>| call_requires(spawner, (id, rx)),
                n == 0 || !(forall|a: (usize, SharedReceiver<J>), ret: Option<H>|
                    call_ensures(spawner, a, ret) ==> ret is None),
            decreases size - n,
        {
            let worker_res = Worker::build(n, clone_shared(&job_receiver), &spawner);
            match worker_res {
                Ok(worker) => workers.push(worker),
                Err(w_err) => {
                    // All-or-nothing: one refused thread aborts the pool.
                    return Err(ThreadPoolBuildError::WorkerError(w_err));
                },
            }
            n += 1;
        }
        Ok(ThreadPool { workers, job_sender: Some(job_sender) })
    }

    /// How many workers the pool owns.
    pub fn worker_count(&self) -> (n: usize)
        ensures
            n == self.spec_size(),
    {
        self.workers.len()
    }

    /// Submit one job. Success means the job was enqueued, not that it
    /// ran: submission is fire-and-forget with respect to completion.
    /// Once teardown has taken the submission handle, every call fails
    /// with `InexistentJobSenderError`; while the handle is held, either
    /// the queue takes the job or it comes back inside
    /// `JobTransmissionError`.
    pub fn execute(&self, job: J) -> (r: Result<(), ThreadPoolError<J>>)
        ensures
            !self.accepting() ==> (r matches Err(e) && e is InexistentJobSenderError),
            self.accepting() ==> (r matches Ok(())
                || (r matches Err(ThreadPoolError::JobTransmissionError(j)) && j == job)),
    {
        let sender = match self.job_sender.as_ref() {
            None => {
                return Err(ThreadPoolError::InexistentJobSenderError);
            },
            Some(s) => s,
        };
        match send_job(sender, job) {
            Ok(()) => Ok(()),
            Err(j) => Err(ThreadPoolError::JobTransmissionError(j)),
        }
    }

    /// Tear the pool down: drop the submission handle first — the signal
    /// that lets every worker's blocking take eventually fail once the
    /// backlog drains — then strip every worker of its thread handle and
    /// hand the handles back, in worker order, for the caller to join.
    /// Nothing can be joined before this returns, so the closing of the
    /// queue always precedes every join; and since the joins happen
    /// outside, teardown itself never fails. The call is idempotent — a
    /// second call returns no handles — and it is the pool's one
    /// teardown path: the pool has no destructor of its own.
    pub fn shutdown(&mut self) -> (handles: Vec<H>)
        ensures
            !final(self).accepting(),
            final(self).spec_size() == old(self).spec_size(),
            old(self).wf() ==> final(self).wf(),
            final(self).all_stopped(),
            handles@ == spec_live_handles(old(self).spec_workers()),
            old(self).all_live() ==> handles@.len() == old(self).spec_size() && (forall|k: int|
                0 <= k < handles@.len() ==> handles@[k] == old(self).spec_workers()[k].spec_handle()->0),
            old(self).all_stopped() ==> handles@.len() == 0,
    {
        // Close the queue before the handles ever reach a joiner, or a
        // waiting worker would block forever.
        self.job_sender = None;

        let ghost orig = self.workers@;
        let mut handles: Vec<H> = Vec::new();
        let mut retired: Vec<Worker<H>> = Vec::new();
        while self.workers.len() > 0
            invariant
                self.job_sender is None,
                retired@.len() + self.workers@.len() == orig.len(),
                self.workers@ =~= orig.skip(retired@.len() as int),
                forall|i: int|
                    0 <= i < retired@.len() ==> (#[trigger] retired@[i]).spec_id()
                        == orig[i].spec_id() && !retired@[i].is_live(),
                handles@ =~= spec_live_handles(orig.subrange(0, retired@.len() as int)),
                (forall|i: int| 0 <= i < orig.len() ==> (#[trigger] orig[i]).is_live())
                    ==> handles@.len() == retired@.len() && (forall|k: int|
                    0 <= k < handles@.len() ==> handles@[k] == orig[k].spec_handle()->0),
                (forall|i: int| 0 <= i < orig.len() ==> !(#[trigger] orig[i]).is_live())
                    ==> handles@.len() == 0,
            decreases self.workers@.len(),
        {
            let ghost j = retired@.len() as int;
            let worker = self.workers.remove(0);
            let Worker { id, handle } = worker;
            match handle {
                Some(h) => {
                    handles.push(h);
                },
                None => {},
            }
            retired.push(Worker { id, handle: None });
            proof {
                let grown = orig.subrange(0, retired@.len() as int);
                assert(grown.drop_last() =~= orig.subrange(0, j));
                assert(grown.last() == orig[j]);
            }
        }
        proof {
            assert(orig.subrange(0, orig.len() as int) =~= orig);
        }
        self.workers = retired;
        handles
    }
}

} // verus!
