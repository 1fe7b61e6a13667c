use vstd::prelude::*;
use crate::event::WakeMode;

verus! {

/// What a finished read call reports upward.
#[derive(Debug)]
pub enum ReadOutcome<E> {
    /// Return the bytes gathered so far (possibly none: zero bytes with no
    /// error is the end-of-stream signal, or the answer to an empty buffer).
    Delivered,
    /// No bytes were produced; the caller should retry after its wake fires.
    NotReady,
    /// A failure, surfaced before any byte of this call was produced.
    Fail(E),
}

/// What the read state machine asks its driver to do next.
#[derive(Debug)]
pub enum ReadStep<E> {
    /// The call is decided; report this outcome.
    Done(ReadOutcome<E>),
    /// Poll the channel's message source with this wake discipline, then feed
    /// the event back in.
    Poll(WakeMode),
}

/// The result of one whole read call, bytes included.
#[derive(Debug, PartialEq, Eq)]
pub enum ReadResult<E> {
    /// The bytes read, in order; empty means end of stream or an empty buffer.
    Bytes(Vec<u8>),
    /// No bytes were available; retry after the wake fires.
    NotReady,
    /// A failure; no bytes accompany it.
    Fail(E),
}

/// The result of one vectored read call.
#[derive(Debug, PartialEq, Eq)]
pub enum VecStatus<E> {
    /// Total bytes written across all destination buffers.
    Read(usize),
    /// No bytes were available; retry after the wake fires.
    NotReady,
    /// A failure; no bytes accompany it.
    Fail(E),
}

/// How a vectored read proceeds after one destination buffer was served.
#[derive(Debug)]
pub enum VecDecision<E> {
    /// The buffer was filled completely: keep its bytes and move to the next.
    Advance(Vec<u8>),
    /// The buffer was only partially filled: keep its bytes and finish.
    Last(Vec<u8>),
    /// Nothing more is immediately available: finish with what earlier
    /// buffers already hold.
    Finish,
    /// Nothing was read at all and the source is not ready: report it.
    NotReady,
    /// Nothing was read at all and the source failed: report it.
    Fail(E),
}

/// What a vectored read does next, chosen from the destination lengths alone.
#[derive(Debug, PartialEq, Eq, Structural)]
pub enum VecStep {
    /// Serve the destination buffer at this index; `first` says whether no
    /// byte has been produced yet, so the real wake may still be registered.
    Buffer { idx: usize, first: bool },
    /// Every destination buffer is empty: make one probe poll of the source,
    /// matching what a read into an empty buffer does.
    Probe,
    /// All buffers are dealt with; report the total.
    Finished,
}

/// The result of one write call.
#[derive(Debug, PartialEq, Eq)]
pub enum WriteResult<E> {
    /// This many bytes were accepted, as exactly one message.
    Accepted(usize),
    /// The channel cannot accept a message yet; nothing was submitted.
    NotReady,
    /// A failure; nothing was accepted.
    Fail(E),
}

/// The result of one flush or close call.
#[derive(Debug, PartialEq, Eq)]
pub enum ControlResult<E> {
    /// The operation completed.
    Done,
    /// Still in progress; retry after the wake fires.
    NotReady,
    /// A failure.
    Fail(E),
}

/// What the write path does after polling for send-readiness.
#[derive(Debug)]
pub enum GateStep<E> {
    /// The channel is ready: submit the message now.
    Proceed,
    /// Propagate "not ready" verbatim; nothing was submitted.
    NotReady,
    /// Propagate the failure verbatim; nothing was submitted.
    Fail(E),
}

/// What the write path does after submitting the message.
#[derive(Debug)]
pub enum WriteFinish<E> {
    /// The message was accepted: make one flush attempt, discard its result,
    /// and report this many bytes accepted.
    Flush(usize),
    /// The submission failed; report it, nothing was accepted.
    Fail(E),
}

} // verus!
