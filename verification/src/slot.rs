//! Completion slots: the single-value channels through which a storage
//! operation that runs in the background reports its result.
//!
//! The iterator opens a slot for every operation it asks for, keeps the
//! receiving half and hands the sending half out with the request. It polls
//! the receiving half without ever waiting on it.

use vstd::prelude::*;
use tokio::sync::oneshot::error::TryRecvError;
use tokio::sync::oneshot::{Receiver, Sender};

verus! {

/// The receiving half of a slot, `tokio::sync::oneshot::Receiver`. Nothing is
/// known of what it holds.
#[verifier::external_type_specification]
#[verifier::external_body]
#[verifier::reject_recursive_types(T)]
pub struct ExReceiver<T>(tokio::sync::oneshot::Receiver<T>);

/// The sending half of a slot, `tokio::sync::oneshot::Sender`. Nothing is
/// known of what it holds.
#[verifier::external_type_specification]
#[verifier::external_body]
#[verifier::reject_recursive_types(T)]
pub struct ExSender<T>(tokio::sync::oneshot::Sender<T>);

/// The error with which an awaited receiving half resolves when the sending
/// half is gone, `tokio::sync::oneshot::error::RecvError`. The iterator never
/// waits on a slot and never sees one; the receiving half names the type.
#[verifier::external_type_specification]
#[verifier::external_body]
pub struct ExRecvError(tokio::sync::oneshot::error::RecvError);

/// What a poll of a slot found.
pub enum SlotState<T> {
    /// No value has been sent yet.
    Vacant,
    /// The sending half is gone and no value will come.
    Closed,
    /// The value that was sent.
    Filled(T),
}

/// Opens a slot. Calls `tokio::sync::oneshot::channel`; nothing is claimed of
/// the two halves it returns.
#[verifier::external_body]
pub(crate) fn open_slot<T>() -> (halves: (Sender<T>, Receiver<T>)) {
    tokio::sync::oneshot::channel()
}

/// Polls a slot without waiting. Calls `tokio::sync::oneshot::Receiver::try_recv`
/// and tells its three outcomes apart; which of them comes depends on what the
/// sending side has done so far, so nothing is claimed of it.
#[verifier::external_body]
pub(crate) fn poll_slot<T>(receiver: &mut Receiver<T>) -> (found: SlotState<T>) {
    match receiver.try_recv() {
        Ok(value) => SlotState::Filled(value),
        Err(TryRecvError::Empty) => SlotState::Vacant,
        Err(TryRecvError::Closed) => SlotState::Closed,
    }
}

} // verus!
