//! The message channels that connect a handle to its worker thread.
//!
//! Whether a receive finds a value depends on timing and on the other thread,
//! so none of these functions promises anything about what comes back: the
//! callers state what holds for every outcome.
use std::sync::mpsc::{Receiver, Sender};
use std::time::Duration;
use vstd::prelude::*;

verus! {

#[verifier::external_type_specification]
#[verifier::external_body]
#[verifier::reject_recursive_types(T)]
pub struct ExReceiver<T>(Receiver<T>);

#[verifier::external_type_specification]
#[verifier::external_body]
#[verifier::reject_recursive_types(T)]
pub struct ExSender<T>(Sender<T>);

/// Relies on `std::sync::mpsc::channel`: a fresh, connected pair of endpoints.
#[verifier::external_body]
pub(crate) fn open_channel<T>() -> (Sender<T>, Receiver<T>) {
    std::sync::mpsc::channel::<T>()
}

/// Relies on `Sender::send`: `false` when the receiving end had already hung
/// up; `true` says only that it had not at that moment, not that the value
/// will be received.
#[verifier::external_body]
pub(crate) fn send_value<T>(tx: &Sender<T>, value: T) -> bool {
    tx.send(value).is_ok()
}

/// Relies on `Receiver::try_recv`: a value if one is queued now, never blocks.
#[verifier::external_body]
pub(crate) fn try_receive<T>(rx: &Receiver<T>) -> Option<T> {
    rx.try_recv().ok()
}

/// Relies on `Receiver::recv`: blocks until a value comes; `None` once every
/// sender is gone.
#[verifier::external_body]
pub(crate) fn receive<T>(rx: &Receiver<T>) -> Option<T> {
    rx.recv().ok()
}

/// Relies on `Receiver::recv_timeout`: blocks at most `timeout` for a value.
#[verifier::external_body]
pub(crate) fn receive_within<T>(rx: &Receiver<T>, timeout: Duration) -> Option<T> {
    rx.recv_timeout(timeout).ok()
}

/// Relies on `Receiver::try_iter`: every value queued at the moment of the
/// call, in the order in which they were sent. The receiver is consumed, so
/// later sends on the channel fail.
#[verifier::external_body]
pub(crate) fn take_queued<T>(rx: Receiver<T>) -> Vec<T> {
    rx.try_iter().collect()
}

} // verus!
