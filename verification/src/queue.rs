//! The job queue: a multi-producer, single-consumer channel. Submission
//! handles feed a single consumption handle, which is shared among the
//! workers behind a reference-counted mutual-exclusion lock, so that
//! exactly one worker extracts a given job.
//!
//! The channel's state lives outside any one thread, so Verus has no
//! model of its contents; each wrapper below states only what holds of
//! every outcome of the call it makes.

use vstd::prelude::*;

verus! {

#[verifier::external_type_specification]
#[verifier::external_body]
#[verifier::reject_recursive_types(T)]
pub struct ExSender<T>(std::sync::mpsc::Sender<T>);

#[verifier::external_type_specification]
#[verifier::external_body]
#[verifier::reject_recursive_types(T)]
pub struct ExReceiver<T>(std::sync::mpsc::Receiver<T>);

/// The shared consumption handle: the receiving end of the channel behind
/// a reference-counted lock. Verus refuses `std::sync::Mutex` in a
/// declaration, so the whole handle is held opaquely in one struct.
#[verifier::external_body]
#[verifier::reject_recursive_types(T)]
pub struct SharedReceiver<T> {
    inner: std::sync::Arc<std::sync::Mutex<std::sync::mpsc::Receiver<T>>>,
}

/// Relies on std::sync::mpsc::channel: an asynchronous channel; sending
/// never blocks, and jobs from one sender arrive in the order they were
/// sent.
#[verifier::external_body]
pub fn job_channel<T>() -> (std::sync::mpsc::Sender<T>, std::sync::mpsc::Receiver<T>) {
    std::sync::mpsc::channel()
}

/// Relies on std::sync::mpsc::Sender::send: fails exactly when the
/// receiving end has been dropped, and the error then carries the
/// unsent job back to the caller.
#[verifier::external_body]
pub fn send_job<T>(sender: &std::sync::mpsc::Sender<T>, job: T) -> (r: Result<(), T>)
    ensures
        r matches Err(j) ==> j == job,
{
    match sender.send(job) {
        Ok(()) => Ok(()),
        Err(e) => Err(e.0),
    }
}

/// Relies on std::sync::Arc::new and std::sync::Mutex::new: puts the
/// consumption handle behind the shared lock.
#[verifier::external_body]
pub fn share_receiver<T>(receiver: std::sync::mpsc::Receiver<T>) -> SharedReceiver<T> {
    SharedReceiver { inner: std::sync::Arc::new(std::sync::Mutex::new(receiver)) }
}

/// Relies on std::sync::Arc::clone: another handle to the same shared
/// consumption end.
#[verifier::external_body]
pub fn clone_shared<T>(receiver: &SharedReceiver<T>) -> SharedReceiver<T> {
    SharedReceiver { inner: std::sync::Arc::clone(&receiver.inner) }
}

/// Relies on std::sync::Mutex::lock and std::sync::mpsc::Receiver::recv:
/// blocks until a job is available (`Ok`) or until every submission
/// handle has been dropped and the backlog is drained (`Err`). Which job
/// comes back depends on the other threads, so nothing more is promised.
/// The lock guards only the extraction and is released before this
/// function returns, so jobs are never run under it; a poisoned lock is
/// recovered rather than propagated.
#[verifier::external_body]
pub fn recv_job<T>(receiver: &SharedReceiver<T>) -> Result<T, ()> {
    let guard = match receiver.inner.lock() {
        Ok(guard) => guard,
        Err(poisoned) => poisoned.into_inner(),
    };
    match guard.recv() {
        Ok(job) => Ok(job),
        Err(_) => Err(()),
    }
}

} // verus!
