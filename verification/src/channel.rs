//! The queue between a native callback and the consumer of a bridge.
//!
//! It is the bounded channel of the `futures` crate. The callback side only
//! ever sends and never waits; the consuming side is polled by the bridge's
//! owner from inside a task, and the bridge is told what the poll gave.

use futures::sync::mpsc::{Receiver, Sender};
use vstd::prelude::*;

verus! {

#[verifier::external_type_specification]
#[verifier::external_body]
#[verifier::reject_recursive_types(T)]
pub struct ExSender<T>(Sender<T>);

#[verifier::external_type_specification]
#[verifier::external_body]
#[verifier::reject_recursive_types(T)]
pub struct ExReceiver<T>(Receiver<T>);

/// Trusted: `futures::sync::mpsc::channel`, which makes a bounded channel
/// and hands out its two ends. It panics for a buffer of a quarter
/// of `usize::MAX` or more, which `requires` leaves out. Nothing is claimed of the ends.
#[verifier::external_body]
pub(crate) fn bounded_channel<T>(buffer: usize) -> (ends: (Sender<T>, Receiver<T>))
    requires
        buffer < usize::MAX / 4,
{
    futures::sync::mpsc::channel(buffer)
}

/// Trusted: `Sender::try_send`, which queues `item` without waiting, or
/// refuses it when the channel is full or its receiver is gone. Which of the
/// two happens depends on the other end, so only this is claimed: an item
/// that comes back is the one that was offered (`TrySendError::into_inner`).
#[verifier::external_body]
pub(crate) fn offer<T>(tx: &mut Sender<T>, item: T) -> (refused: Option<T>)
    ensures
        refused matches Some(back) ==> back == item,
{
    match tx.try_send(item) {
        Ok(()) => None,
        Err(e) => Some(e.into_inner()),
    }
}

} // verus!
