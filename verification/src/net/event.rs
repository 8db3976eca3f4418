//! Notifications that the engine publishes to its owner.

use vstd::prelude::*;

verus! {

/// A notification from a running engine.
///
/// Notifications are an extension point. The control loop owns the sending
/// side of the event channel and closes it when it shuts down; of its own
/// accord it publishes nothing. A driver may announce the end of a run with
/// `Stopped` before the channel closes.
#[derive(Clone, Copy, Debug, PartialEq, Eq, Structural)]
pub enum Event {
    /// The engine has left its loop.
    Stopped,
}

} // verus!
