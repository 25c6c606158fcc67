//! The notification channel: a multi-producer, single-consumer queue of the
//! standard library, reached through a handful of trusted signatures.

use vstd::prelude::*;
use crate::envelope::{Envelope, NotifyError, Received};

verus! {

/// `std::sync::mpsc::Sender`, the cloneable sending end: carried through,
/// never looked into.
#[verifier::external_type_specification]
#[verifier::external_body]
#[verifier::reject_recursive_types(T)]
pub struct ExSender<T>(std::sync::mpsc::Sender<T>);

/// `std::sync::mpsc::Receiver`, the single receiving end: carried through,
/// never looked into.
#[verifier::external_type_specification]
#[verifier::external_body]
#[verifier::reject_recursive_types(T)]
pub struct ExReceiver<T>(std::sync::mpsc::Receiver<T>);

/// `std::io::Error`, the error of a push into a bare sender: carried through,
/// never looked into.
#[verifier::external_type_specification]
#[verifier::external_body]
pub struct ExIoError(std::io::Error);

/// Calls `std::sync::mpsc::channel`. Nothing is claimed of the pair it
/// returns: the two ends are opaque.
#[verifier::external_body]
pub(crate) fn notification<T>() -> (ends: (std::sync::mpsc::Sender<T>, std::sync::mpsc::Receiver<T>)) {
    std::sync::mpsc::channel()
}

/// Calls `Clone::clone` on a `std::sync::mpsc::Sender`. Claims that the clone
/// is the same sender as the one it was made from: in the standard library a
/// clone holds the same reference to the same channel, and nothing else.
#[verifier::external_body]
pub(crate) fn clone_sender<T>(sender: &std::sync::mpsc::Sender<T>) -> (copy: std::sync::mpsc::Sender<T>)
    ensures
        copy == *sender,
{
    sender.clone()
}

/// Calls `std::sync::mpsc::Sender::send`. Whether the value is enqueued
/// depends on whether the receiver still lives, so nothing is claimed of
/// success. Claims that a failed send hands back the value it was given, as
/// the standard library documents of its error; that error becomes
/// `NotifyError`, payload and all.
#[verifier::external_body]
pub(crate) fn send<T>(sender: &std::sync::mpsc::Sender<T>, value: T) -> (sent: Result<
    (),
    NotifyError<T>,
>)
    ensures
        sent matches Err(failed) ==> failed.0 == value,
{
    match sender.send(value) {
        Ok(()) => Ok(()),
        Err(std::sync::mpsc::SendError(back)) => Err(NotifyError(back)),
    }
}

/// Calls `std::time::Duration::from_millis`. A duration is opaque here, so
/// nothing is claimed of it.
#[verifier::external_body]
pub(crate) fn milliseconds(millis: u64) -> (timeout: std::time::Duration) {
    std::time::Duration::from_millis(millis)
}

/// Calls `std::sync::mpsc::Receiver::recv_timeout`. The outcome depends on
/// time and on the other threads, so nothing is claimed of it; the three
/// outcomes of the standard library map one for one to the variants of
/// `Received`.
#[verifier::external_body]
pub(crate) fn recv_timeout<C>(
    receiver: &std::sync::mpsc::Receiver<Envelope<C>>,
    timeout: std::time::Duration,
) -> (received: Received<C>) {
    match receiver.recv_timeout(timeout) {
        Ok(envelope) => Received::Message(envelope),
        Err(std::sync::mpsc::RecvTimeoutError::Timeout) => Received::TimedOut,
        Err(std::sync::mpsc::RecvTimeoutError::Disconnected) => Received::Closed,
    }
}

/// Calls `std::io::Error::new` with the kind `BrokenPipe` and the given
/// message. The error is opaque, so nothing is claimed of it.
#[verifier::external_body]
pub(crate) fn broken_pipe(message: &'static str) -> (error: std::io::Error) {
    std::io::Error::new(std::io::ErrorKind::BrokenPipe, message)
}

} // verus!
