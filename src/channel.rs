//! The outside primitives that connect the front end with the engine: the
//! task queue, single-use channels, and the lock around shared task state.
use std::sync::{Arc, Mutex};

use vstd::prelude::*;

use crate::state::TaskState;

verus! {

#[verifier::external_type_specification]
#[verifier::external_body]
#[verifier::reject_recursive_types(T)]
pub struct ExOneshotSender<T>(tokio::sync::oneshot::Sender<T>);

#[verifier::external_type_specification]
#[verifier::external_body]
#[verifier::reject_recursive_types(T)]
pub struct ExOneshotReceiver<T>(tokio::sync::oneshot::Receiver<T>);

#[verifier::external_type_specification]
#[verifier::external_body]
pub struct ExOneshotRecvError(tokio::sync::oneshot::error::RecvError);

#[verifier::external_type_specification]
#[verifier::external_body]
#[verifier::reject_recursive_types(T)]
pub struct ExQueueSender<T>(tokio::sync::mpsc::Sender<T>);

#[verifier::external_type_specification]
#[verifier::external_body]
#[verifier::reject_recursive_types(T)]
pub struct ExMutex<T: ?Sized>(std::sync::Mutex<T>);

/// A single-use channel; nothing is known of the fresh endpoints.
pub assume_specification<T>[ tokio::sync::oneshot::channel::<T> ]() -> (
    tokio::sync::oneshot::Sender<T>,
    tokio::sync::oneshot::Receiver<T>,
);

/// Sending on a single-use channel consumes the sender; whether the value
/// arrives depends on the receiver.
pub assume_specification<T>[ tokio::sync::oneshot::Sender::<T>::send ](
    s: tokio::sync::oneshot::Sender<T>,
    t: T,
) -> Result<(), T>;

pub assume_specification<T>[ std::sync::Mutex::<T>::new ](t: T) -> std::sync::Mutex<T>;

/// What a non-blocking look at a single-use channel found.
pub enum Polled<T> {
    Ready(T),
    /// Nothing has been sent yet.
    Pending,
    /// The sender was dropped without sending.
    Closed,
}

/// Relies on `tokio::sync::oneshot::Receiver::try_recv`: a value, `Empty`
/// or `Closed`, depending on the sender; nothing is promised of which.
#[verifier::external_body]
pub fn poll_once<T>(rx: &mut tokio::sync::oneshot::Receiver<T>) -> (r: Polled<T>) {
    match rx.try_recv() {
        Ok(v) => Polled::Ready(v),
        Err(tokio::sync::oneshot::error::TryRecvError::Empty) => Polled::Pending,
        Err(tokio::sync::oneshot::error::TryRecvError::Closed) => Polled::Closed,
    }
}

/// Relies on `tokio::sync::mpsc::Sender::blocking_send`: waits for room in
/// the queue and hands the value over, or gives it back when the queue is
/// closed. It must not be called from within an async runtime.
#[verifier::external_body]
pub fn blocking_push<T>(tx: &tokio::sync::mpsc::Sender<T>, value: T) -> (r: Result<(), T>)
    ensures
        r is Err ==> r->Err_0 == value,
{
    tx.blocking_send(value).map_err(|e| e.0)
}

/// Relies on `Mutex::lock` and `Clone`: a copy of the shared state as it is
/// under the lock; a poisoned lock still yields its contents.
#[verifier::external_body]
pub fn read_shared(h: &Arc<Mutex<TaskState>>) -> (r: TaskState) {
    match h.lock() {
        Ok(guard) => guard.clone(),
        Err(poisoned) => poisoned.into_inner().clone(),
    }
}

} // verus!
