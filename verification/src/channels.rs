//! Trusted declarations of the std mpsc endpoints that subscriber handles
//! and broker addresses are made of.
//!
//! Whether a given send succeeds depends on the receiving end's state (alive,
//! full, dropped), which is outside this crate, so the wrappers promise
//! nothing of their results: callers state what holds whatever came back.

use vstd::prelude::*;

verus! {

/// Relies on std::sync::mpsc::Sender, the sending half of an unbounded
/// channel; held opaquely as a queue-subscriber endpoint and as the broker
/// and sink handles.
#[verifier::external_type_specification]
#[verifier::external_body]
#[verifier::reject_recursive_types(T)]
pub struct ExSender<T>(std::sync::mpsc::Sender<T>);

/// Relies on std::sync::mpsc::SyncSender, the sending half of a bounded
/// channel; held opaquely as a mailbox-subscriber inbox.
#[verifier::external_type_specification]
#[verifier::external_body]
#[verifier::reject_recursive_types(T)]
pub struct ExSyncSender<T>(std::sync::mpsc::SyncSender<T>);

/// Relies on std::sync::mpsc::Sender::send: queues the value on an unbounded
/// channel without blocking; returns an error exactly when the receiving end
/// has been dropped.
#[verifier::external_body]
pub(crate) fn channel_send<T>(tx: &std::sync::mpsc::Sender<T>, value: T) -> (r: bool) {
    tx.send(value).is_ok()
}

/// Relies on std::sync::mpsc::SyncSender::try_send: delivers without
/// blocking; returns an error exactly when the bounded buffer is full or the
/// receiving end has been dropped.
#[verifier::external_body]
pub(crate) fn mailbox_try_send<T>(tx: &std::sync::mpsc::SyncSender<T>, value: T) -> (r: bool) {
    tx.try_send(value).is_ok()
}

} // verus!
