//! The channel and task handles of `async_channel` and `tokio`, as far as the
//! control plane touches them.
//!
//! Whether a channel is closed or a task has finished depends on what other
//! tasks have done, so nothing is claimed of what those calls report.

use async_channel::{Receiver, Sender, TrySendError};
use std::sync::Arc;
use tokio::task::{JoinError, JoinHandle};
use vstd::prelude::*;

verus! {

/// `async_channel::Sender`, the sending side of a channel. Nothing is known
/// of what is inside.
#[verifier::external_type_specification]
#[verifier::external_body]
#[verifier::reject_recursive_types(T)]
pub struct ExSender<T>(Sender<T>);

/// `async_channel::Receiver`, the receiving side of a channel. Nothing is
/// known of what is inside.
#[verifier::external_type_specification]
#[verifier::external_body]
#[verifier::reject_recursive_types(T)]
pub struct ExReceiver<T>(Receiver<T>);

/// `tokio::task::JoinHandle`, the handle of a spawned task. Nothing is known
/// of what is inside.
#[verifier::external_type_specification]
#[verifier::external_body]
#[verifier::reject_recursive_types(T)]
pub struct ExJoinHandle<T>(JoinHandle<T>);

/// `tokio::task::JoinError`, which awaiting a handle may give. It is named
/// only because the handle's type mentions it.
#[verifier::external_type_specification]
#[verifier::external_body]
pub struct ExJoinError(JoinError);

/// `async_channel::unbounded` makes a channel without a limit.
pub assume_specification<T>[ async_channel::unbounded::<T> ]() -> (ends: (Sender<T>, Receiver<T>))
;

/// `Sender::is_closed` reports whether the channel is closed at this moment.
pub assume_specification<T>[ Sender::<T>::is_closed ](sender: &Sender<T>) -> (closed: bool)
;

/// `Receiver::is_closed` reports whether the channel is closed at this moment.
pub assume_specification<T>[ Receiver::<T>::is_closed ](receiver: &Receiver<T>) -> (closed: bool)
;

/// `Sender::close` closes the channel; the result tells whether this call
/// was the one that closed it.
pub assume_specification<T>[ Sender::<T>::close ](sender: &Sender<T>) -> (first: bool)
;

/// `Receiver::close` closes the channel; the result tells whether this call
/// was the one that closed it.
pub assume_specification<T>[ Receiver::<T>::close ](receiver: &Receiver<T>) -> (first: bool)
;

/// `JoinHandle::is_finished` reports whether the task has run to its end at
/// this moment.
pub assume_specification<T>[ JoinHandle::<T>::is_finished ](handle: &JoinHandle<T>) -> (
    finished: bool
)
;

/// Calls `Sender::clone`.
///
/// Trusted: the clone is one more handle on the same channel, and so stands
/// for the same value.
#[verifier::external_body]
pub(crate) fn share_sender<T>(sender: &Sender<T>) -> (shared: Sender<T>)
    ensures
        shared == *sender,
{
    sender.clone()
}

/// Calls `Receiver::clone`.
///
/// Trusted: the clone is one more handle on the same channel, and so stands
/// for the same value.
#[verifier::external_body]
pub(crate) fn share_receiver<T>(receiver: &Receiver<T>) -> (shared: Receiver<T>)
    ensures
        shared == *receiver,
{
    receiver.clone()
}

/// Calls `Arc::clone` on the handle of a task.
///
/// Trusted: the clone points to the same handle, and so stands for the same
/// value.
#[verifier::external_body]
pub(crate) fn share_task<T>(handle: &Arc<JoinHandle<T>>) -> (shared: Arc<JoinHandle<T>>)
    ensures
        shared == *handle,
{
    Arc::clone(handle)
}

/// What became of a message offered to a channel.
#[derive(Clone, Copy, Debug, PartialEq, Eq, Structural)]
pub enum Delivery {
    /// The channel took the message.
    Sent,
    /// The channel holds as many messages as it can.
    Full,
    /// The channel is closed: nobody is left to receive.
    Closed,
}

/// Calls `Sender::try_send`, which never waits.
///
/// Trusted: only the shape of the outcome is handed on. Which outcome comes
/// back depends on the channel's state at this moment.
#[verifier::external_body]
pub(crate) fn offer<T>(sender: &Sender<T>, message: T) -> (outcome: Delivery) {
    match sender.try_send(message) {
        Ok(()) => Delivery::Sent,
        Err(TrySendError::Full(_)) => Delivery::Full,
        Err(TrySendError::Closed(_)) => Delivery::Closed,
    }
}

} // verus!
