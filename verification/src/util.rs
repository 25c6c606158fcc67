//! The generic push interface.

use vstd::prelude::*;
use crate::channel::{broken_pipe, send};
use crate::envelope::NotifyError;

verus! {

/// Something that values can be pushed into.
pub trait Consume {
    /// What is pushed.
    type Item;
    /// Why a push can fail.
    type Error;

    /// Pushes `value`; an error means that it was not taken.
    fn consume(&mut self, value: Self::Item) -> Result<(), Self::Error>;
}

/// What a push into a bare sender reports for the outcome `sent` of the
/// send: success for success, and a broken pipe for a failure, whose
/// undelivered value is dropped.
pub fn or_broken_pipe<T>(sent: Result<(), NotifyError<T>>) -> (pushed: Result<(), std::io::Error>)
    ensures
        pushed is Ok <==> sent is Ok,
{
    match sent {
        Ok(()) => Ok(()),
        Err(_) => Err(broken_pipe("cannot write to mpsc::Sender")),
    }
}

impl<T> Consume for std::sync::mpsc::Sender<T> {
    type Item = T;
    type Error = std::io::Error;

    /// Sends `value` on the channel; a failed send is reported as a broken
    /// pipe. The sender itself is left as it was.
    fn consume(&mut self, value: T) -> (pushed: Result<(), std::io::Error>)
        ensures
            *final(self) == *old(self),
    {
        or_broken_pipe(send(self, value))
    }
}

} // verus!
