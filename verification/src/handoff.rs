//! Trusted surface of the cross-thread handoff channel.
//!
//! Decode results travel from background worker threads to the owning
//! thread over a standard multi-producer/single-consumer channel. The
//! channel types are opaque here: nothing is assumed about which messages
//! are queued or in what order they arrive, so every consumer of a drained
//! message must be correct for any message value — which is exactly how the
//! managers are specified.

use vstd::prelude::*;

use std::sync::mpsc::Receiver;
use std::sync::mpsc::Sender;

verus! {

/// Sending half of a handoff channel; workers publish results through it.
#[verifier::external_type_specification]
#[verifier::external_body]
#[verifier::reject_recursive_types(T)]
pub struct ExSender<T>(Sender<T>);

/// Receiving half of a handoff channel; only the owning manager holds it.
#[verifier::external_type_specification]
#[verifier::external_body]
#[verifier::reject_recursive_types(T)]
pub struct ExReceiver<T>(Receiver<T>);

/// Relies on std::sync::mpsc::channel: builds a connected sender/receiver
/// pair with an unbounded queue between them.
#[verifier::external_body]
pub(crate) fn channel_pair<T>() -> (Sender<T>, Receiver<T>) {
    std::sync::mpsc::channel()
}

/// Relies on std::sync::mpsc::Sender::clone: another sending handle to the
/// same channel, for handing to a worker thread.
#[verifier::external_body]
pub(crate) fn sender_clone<T>(tx: &Sender<T>) -> Sender<T> {
    tx.clone()
}

/// Relies on std::sync::mpsc::Receiver::try_recv: a queued message if one
/// is immediately available, and `None` otherwise; it never blocks. Which
/// message arrives, if any, depends on the worker threads, so nothing is
/// assumed of the result.
#[verifier::external_body]
pub(crate) fn try_next<T>(rx: &Receiver<T>) -> Option<T> {
    match rx.try_recv() {
        Ok(value) => Some(value),
        Err(_) => None,
    }
}

} // verus!
