use vstd::prelude::*;

verus! {

/// The wake discipline that one poll of the inner channel must use.
///
/// Only the first probe of a read call, made before any byte has been
/// produced, may register the caller's real wake notification: that call may
/// still report "not ready" and suspend. Every later probe in the same call
/// must discard wake requests, because the call will report the bytes it
/// already holds instead of suspending, and a registered wake would fire for
/// a suspension that never happened.
#[derive(Clone, Copy, Debug, PartialEq, Eq, Structural)]
pub enum WakeMode {
    /// Hand the channel the caller's real wake notification.
    Caller,
    /// Hand the channel a notification target that discards wake requests.
    Discard,
}

/// What one poll of the channel's message source reported.
#[derive(Debug)]
pub enum NextEvent<E> {
    /// No message yet; polling again later is how progress is observed.
    NotReady,
    /// The next message, as one discrete chunk of bytes.
    Message(Vec<u8>),
    /// The source is exhausted and must not be polled again.
    Ended,
    /// A channel-level failure.
    Fail(E),
}

/// What one send-readiness poll of the channel reported.
#[derive(Debug)]
pub enum GateEvent<E> {
    /// Not ready to accept a message yet.
    NotReady,
    /// Ready: one message may be submitted now.
    Ready,
    /// A channel-level failure.
    Fail(E),
}

/// The outcome of submitting one message to the channel.
#[derive(Debug)]
pub enum SendEvent<E> {
    /// The message was accepted for buffering.
    Accepted,
    /// The submission failed; nothing was accepted.
    Fail(E),
}

/// What one poll of the channel's flush or close operation reported.
#[derive(Debug)]
pub enum FlushEvent<E> {
    /// Still in progress.
    NotReady,
    /// The operation completed.
    Done,
    /// A channel-level failure.
    Fail(E),
}

} // verus!
