//! The values that travel through a worker's channel, and what a timed
//! receive can yield.

use vstd::prelude::*;

verus! {

/// The only payload ever placed on a worker's channel.
#[derive(Debug, PartialEq, Eq)]
pub enum Envelope<C> {
    /// A command for the handler.
    Cmd(C),
    /// The signal that stops the worker.
    Shutdown,
}

/// The outcome of one timed receive on the worker's channel.
#[derive(Debug, PartialEq, Eq)]
pub enum Received<C> {
    /// An envelope arrived before the timeout.
    Message(Envelope<C>),
    /// The timeout elapsed with nothing received.
    TimedOut,
    /// Every sender is gone and the queue is empty.
    Closed,
}

/// One invocation of the handler.
#[derive(Debug, PartialEq, Eq)]
pub enum Call<C> {
    /// `command` with the given value.
    Command(C),
    /// `poll`.
    Poll,
}

/// The transport error of a push: the receiving end is gone, so the value
/// cannot be delivered. It hands the undelivered value back.
#[derive(Debug, PartialEq, Eq)]
pub struct NotifyError<T>(pub T);

} // verus!
