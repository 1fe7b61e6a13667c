use vstd::prelude::*;
use vstd::math::min;
use crate::event::{FlushEvent, GateEvent, NextEvent, SendEvent, WakeMode};
use crate::outcome::{
    ControlResult, GateStep, ReadOutcome, ReadResult, ReadStep, VecDecision, VecStep, WriteFinish,
};
use crate::pending::PendingRead;

verus! {

/// The buffering state machine that turns a message-oriented channel into a
/// byte stream.
///
/// It owns no channel itself: a driver polls the channel and feeds each event
/// in, and the adapter decides what happens — which bytes go to the caller,
/// what is buffered, which errors are deferred, and whether the driver must
/// poll again and with which wake discipline. Everything the adapter decides
/// is therefore decided here, whatever event loop hosts it.
pub struct StreamAdapter<E> {
    /// Read-side state carried across calls.
    pub pending: PendingRead<E>,
    /// A flush failure observed by a write call's internal flush attempt,
    /// owed to the next write or flush call, exactly once.
    pub write_err: Option<E>,
    /// History of every byte handed to the caller, oldest first. Together
    /// with `buffered()` it ties what callers saw to what the channel
    /// produced: delivered plus buffered is exactly the concatenation of the
    /// consumed messages, in order.
    pub delivered: Ghost<Seq<u8>>,
}

impl<E> StreamAdapter<E> {
    /// The bytes already pulled from the channel but still owed to the caller.
    pub open spec fn buffered(&self) -> Seq<u8> {
        self.pending.buffered()
    }

    /// Structural soundness of the read-side state.
    pub open spec fn wf(&self) -> bool {
        self.pending.wf()
    }

    /// A fresh adapter: nothing buffered, nothing owed, nothing delivered.
    pub fn new() -> (a: Self)
        ensures
            a.wf(),
            a.pending is Empty,
            a.write_err is None,
            a.delivered@ == Seq::<u8>::empty(),
    {
        StreamAdapter {
            pending: PendingRead::Empty,
            write_err: None,
            delivered: Ghost(Seq::empty()),
        }
    }

    /// Begin one read call of capacity `cap`: settle everything the stored
    /// state alone decides — the end-of-stream latch, a deferred error, and
    /// buffered bytes — before the channel is consulted at all.
    ///
    /// `real_wake` says whether this call may still suspend the caller; it is
    /// false for every destination buffer of a vectored read after the first.
    pub fn read_begin(&mut self, out: &mut Vec<u8>, cap: usize, real_wake: bool) -> (step: ReadStep<
        E,
    >)
        requires
            old(self).wf(),
            old(out)@.len() == 0,
        ensures
            final(self).wf(),
            final(self).write_err == old(self).write_err,
            final(out)@.len() <= cap,
            // bytes move only from the buffer to the caller, in order
            final(out)@ + final(self).buffered() == old(self).buffered(),
            final(self).delivered@ == old(self).delivered@ + final(out)@,
            match old(self).pending {
                // end-of-stream latch: answered at once, without any poll
                PendingRead::Ended => {
                    &&& step == ReadStep::<E>::Done(ReadOutcome::Delivered)
                    &&& final(self).pending is Ended
                    &&& final(out)@.len() == 0
                },
                // a deferred error is surfaced verbatim, exactly once
                PendingRead::DeferredError(e) => {
                    &&& step == ReadStep::<E>::Done(ReadOutcome::Fail(e))
                    &&& final(self).pending is Empty
                    &&& final(out)@.len() == 0
                },
                // nothing stored: the channel must be consulted
                PendingRead::Empty => {
                    &&& step == ReadStep::<E>::Poll(
                        if real_wake {
                            WakeMode::Caller
                        } else {
                            WakeMode::Discard
                        },
                    )
                    &&& final(self).pending is Empty
                    &&& final(out)@.len() == 0
                },
                // buffered bytes are handed out first, as many as fit
                PendingRead::Chunk { bytes: b0, cursor: c0 } => {
                    &&& final(out)@.len() == min(cap as int, b0@.len() - c0)
                    &&& (final(out)@.len() == cap ==> step == ReadStep::<E>::Done(
                        ReadOutcome::Delivered,
                    ))
                    &&& (final(out)@.len() < cap ==> {
                        &&& step == ReadStep::<E>::Poll(WakeMode::Discard)
                        &&& final(self).pending is Empty
                    })
                    &&& ((cap as int) >= b0@.len() - c0 ==> final(self).pending is Empty)
                    &&& ((cap as int) < b0@.len() - c0 ==> final(self).pending
                        == PendingRead::<E>::Chunk { bytes: b0, cursor: (c0 + cap) as usize })
                },
            },
    {
        let mut cur = PendingRead::Empty;
        core::mem::swap(&mut cur, &mut self.pending);
        match cur {
            PendingRead::Ended => {
                self.pending = PendingRead::Ended;
                ReadStep::Done(ReadOutcome::Delivered)
            },
            PendingRead::DeferredError(e) => ReadStep::Done(ReadOutcome::Fail(e)),
            PendingRead::Empty => ReadStep::Poll(
                if real_wake {
                    WakeMode::Caller
                } else {
                    WakeMode::Discard
                },
            ),
            PendingRead::Chunk { bytes, cursor } => {
                let avail = bytes.len() - cursor;
                let k = if cap < avail {
                    cap
                } else {
                    avail
                };
                let mut i: usize = 0;
                while i < k
                    invariant
                        i <= k,
                        k <= avail,
                        avail == bytes@.len() - cursor,
                        cursor + k <= bytes@.len() <= usize::MAX,
                        out@ == bytes@.subrange(cursor as int, cursor + i),
                    decreases k - i,
                {
                    out.push(bytes[cursor + i]);
                    i += 1;
                }
                proof {
                    assert(out@ + bytes@.skip(cursor + k) =~= bytes@.skip(cursor as int));
                }
                self.delivered = Ghost(self.delivered@ + out@);
                if k < avail {
                    let next = cursor + k;
                    self.pending = PendingRead::Chunk { bytes, cursor: next };
                    assert(self.buffered() =~= bytes@.skip(cursor + k));
                } else {
                    assert(out@ =~= bytes@.skip(cursor as int));
                }
                if out.len() == cap {
                    ReadStep::Done(ReadOutcome::Delivered)
                } else {
                    ReadStep::Poll(WakeMode::Discard)
                }
            },
        }
    }

    /// Feed in the outcome of one poll of the channel's message source and
    /// decide how the read call goes on.
    ///
    /// The driver only polls when nothing is buffered, so the stored state is
    /// `Empty` here; `out` holds whatever this call has produced so far.
    pub fn read_resume(
        &mut self,
        out: &mut Vec<u8>,
        cap: usize,
        real_wake: bool,
        ev: NextEvent<E>,
    ) -> (step: ReadStep<E>)
        requires
            old(self).wf(),
            old(self).pending is Empty,
            old(out)@.len() <= cap,
            old(out)@.len() < cap || cap == 0,
        ensures
            final(self).wf(),
            final(self).write_err == old(self).write_err,
            final(out)@.len() <= cap,
            final(out)@.take(old(out)@.len() as int) == old(out)@,
            final(self).delivered@ == old(self).delivered@ + final(out)@.skip(
                old(out)@.len() as int,
            ),
            match ev {
                // no message yet: report progress if there was any, else suspend
                NextEvent::NotReady => {
                    &&& final(self).pending is Empty
                    &&& final(out)@ == old(out)@
                    &&& step == ReadStep::<E>::Done(
                        if old(out)@.len() == 0 {
                            ReadOutcome::NotReady
                        } else {
                            ReadOutcome::Delivered
                        },
                    )
                },
                // exhaustion is latched; whatever was read is reported
                NextEvent::Ended => {
                    &&& final(self).pending is Ended
                    &&& final(out)@ == old(out)@
                    &&& step == ReadStep::<E>::Done(ReadOutcome::Delivered)
                },
                // an error is surfaced now if no byte was produced, else
                // deferred to the next call so the bytes are not lost
                NextEvent::Fail(e) => {
                    &&& final(out)@ == old(out)@
                    &&& if old(out)@.len() == 0 {
                        &&& final(self).pending is Empty
                        &&& step == ReadStep::<E>::Done(ReadOutcome::Fail(e))
                    } else {
                        &&& final(self).pending == PendingRead::<E>::DeferredError(e)
                        &&& step == ReadStep::<E>::Done(ReadOutcome::Delivered)
                    }
                },
                // a message: as much as fits goes to the caller, the rest is
                // buffered; a full buffer ends the call, otherwise poll again
                NextEvent::Message(m) => {
                    let k = min(cap - old(out)@.len(), m@.len() as int);
                    &&& final(out)@ == old(out)@ + m@.take(k)
                    &&& final(self).buffered() == m@.skip(k)
                    &&& (k < m@.len() ==> (final(self).pending matches PendingRead::Chunk {
                        bytes,
                        cursor,
                    } && bytes@ == m@ && cursor == k))
                    &&& (k == m@.len() ==> final(self).pending is Empty)
                    &&& (final(out)@.len() == cap ==> step == ReadStep::<E>::Done(
                        ReadOutcome::Delivered,
                    ))
                    &&& (final(out)@.len() < cap ==> step == ReadStep::<E>::Poll(
                        if real_wake && final(out)@.len() == 0 {
                            WakeMode::Caller
                        } else {
                            WakeMode::Discard
                        },
                    ))
                },
            },
    {
        proof {
            // an arm that leaves `out` alone appends nothing to the history
            assert(self.delivered@ + out@.skip(old(out)@.len() as int) =~= self.delivered@);
            assert(out@.take(old(out)@.len() as int) =~= out@);
        }
        match ev {
            NextEvent::NotReady => {
                if out.len() == 0 {
                    ReadStep::Done(ReadOutcome::NotReady)
                } else {
                    ReadStep::Done(ReadOutcome::Delivered)
                }
            },
            NextEvent::Ended => {
                self.pending = PendingRead::Ended;
                ReadStep::Done(ReadOutcome::Delivered)
            },
            NextEvent::Fail(e) => {
                if out.len() == 0 {
                    ReadStep::Done(ReadOutcome::Fail(e))
                } else {
                    self.pending = PendingRead::DeferredError(e);
                    ReadStep::Done(ReadOutcome::Delivered)
                }
            },
            NextEvent::Message(bytes) => {
                let start = out.len();
                let room = cap - start;
                let avail = bytes.len();
                let k = if room < avail {
                    room
                } else {
                    avail
                };
                let mut i: usize = 0;
                while i < k
                    invariant
                        i <= k,
                        k <= avail,
                        avail == bytes@.len(),
                        start == old(out)@.len(),
                        out@ == old(out)@ + bytes@.take(i as int),
                    decreases k - i,
                {
                    out.push(bytes[i]);
                    i += 1;
                }
                proof {
                    assert(out@.skip(old(out)@.len() as int) =~= bytes@.take(k as int));
                    assert(out@.take(old(out)@.len() as int) =~= old(out)@);
                }
                self.delivered = Ghost(self.delivered@ + bytes@.take(k as int));
                if k < avail {
                    self.pending = PendingRead::Chunk { bytes, cursor: k };
                }
                if out.len() == cap {
                    ReadStep::Done(ReadOutcome::Delivered)
                } else {
                    ReadStep::Poll(
                        if real_wake && out.len() == 0 {
                            WakeMode::Caller
                        } else {
                            WakeMode::Discard
                        },
                    )
                }
            },
        }
    }

    /// Take the flush failure owed from an earlier write call, if any.
    ///
    /// Every write and every explicit flush starts here: an owed failure is
    /// surfaced before the channel is touched, exactly once.
    pub fn take_write_err(&mut self) -> (r: Option<E>)
        ensures
            final(self).pending == old(self).pending,
            final(self).delivered == old(self).delivered,
            final(self).write_err is None,
            r == old(self).write_err,
    {
        self.write_err.take()
    }

    /// Record the outcome of the flush attempt that a write call makes right
    /// after submitting its message. The outcome is discarded — the bytes are
    /// already committed, so the call reports them accepted whatever the
    /// flush said — but a failure is kept, owed to the next write or flush
    /// call.
    pub fn note_flush(&mut self, ev: FlushEvent<E>)
        requires
            old(self).write_err is None,
        ensures
            final(self).pending == old(self).pending,
            final(self).delivered == old(self).delivered,
            final(self).write_err == match ev {
                FlushEvent::Fail(e) => Some(e),
                _ => Option::<E>::None,
            },
    {
        match ev {
            FlushEvent::Fail(e) => {
                self.write_err = Some(e);
            },
            _ => {},
        }
    }

    /// Absorb one destination buffer's single-read result into a vectored
    /// read that has already written `have` bytes into earlier buffers.
    ///
    /// A completely filled buffer lets the call advance to the next one; any
    /// shorter answer ends the call. Once earlier buffers hold bytes, neither
    /// "not ready" nor an error may displace them: the former finishes with
    /// the running total, the latter is deferred to the next read call.
    pub fn vec_absorb(&mut self, have: usize, buf_len: usize, sub: ReadResult<E>) -> (d:
        VecDecision<E>)
        requires
            old(self).wf(),
            buf_len > 0,
            sub matches ReadResult::Bytes(v) ==> v@.len() <= buf_len,
            sub is Fail ==> old(self).pending is Empty,
        ensures
            final(self).wf(),
            final(self).delivered == old(self).delivered,
            final(self).write_err == old(self).write_err,
            match sub {
                ReadResult::Bytes(v) => *final(self) == *old(self) && d == (if v@.len() == buf_len {
                    VecDecision::<E>::Advance(v)
                } else {
                    VecDecision::<E>::Last(v)
                }),
                ReadResult::NotReady => *final(self) == *old(self) && d == (if have == 0 {
                    VecDecision::<E>::NotReady
                } else {
                    VecDecision::<E>::Finish
                }),
                ReadResult::Fail(e) => if have == 0 {
                    *final(self) == *old(self) && d == VecDecision::<E>::Fail(e)
                } else {
                    &&& final(self).pending == PendingRead::<E>::DeferredError(e)
                    &&& d == VecDecision::<E>::Finish
                },
            },
    {
        match sub {
            ReadResult::Bytes(v) => {
                if v.len() == buf_len {
                    VecDecision::Advance(v)
                } else {
                    VecDecision::Last(v)
                }
            },
            ReadResult::NotReady => {
                if have == 0 {
                    VecDecision::NotReady
                } else {
                    VecDecision::Finish
                }
            },
            ReadResult::Fail(e) => {
                if have == 0 {
                    VecDecision::Fail(e)
                } else {
                    self.pending = PendingRead::DeferredError(e);
                    VecDecision::Finish
                }
            },
        }
    }
}

/// Choose what a vectored read does next: the next destination buffer with
/// room, skipping empty ones without consuming data; when none is left,
/// either finish with the running total or — if no byte was produced by any
/// buffer — make the one probe poll that a read into an empty buffer makes.
pub fn vec_next(lens: &Vec<usize>, idx: usize, have: usize) -> (step: VecStep)
    requires
        idx <= lens@.len(),
    ensures
        match step {
            VecStep::Buffer { idx: j, first } => {
                &&& idx <= j < lens@.len()
                &&& lens@[j as int] > 0
                &&& (forall|t: int| idx <= t < j ==> lens@[t] == 0)
                &&& first == (have == 0)
            },
            VecStep::Probe => {
                &&& have == 0
                &&& forall|t: int| idx <= t < lens@.len() ==> lens@[t] == 0
            },
            VecStep::Finished => {
                &&& have > 0
                &&& forall|t: int| idx <= t < lens@.len() ==> lens@[t] == 0
            },
        },
{
    let mut j = idx;
    while j < lens.len()
        invariant
            idx <= j <= lens@.len(),
            forall|t: int| idx <= t < j ==> lens@[t] == 0,
        decreases lens@.len() - j,
    {
        if lens[j] > 0 {
            return VecStep::Buffer { idx: j, first: have == 0 };
        }
        j += 1;
    }
    if have == 0 {
        VecStep::Probe
    } else {
        VecStep::Finished
    }
}

/// Decide the write path's next move from the send-readiness answer:
/// "not ready" and failures propagate verbatim, and nothing is submitted.
pub fn write_gate<E>(ev: GateEvent<E>) -> (step: GateStep<E>)
    ensures
        match ev {
            GateEvent::NotReady => step is NotReady,
            GateEvent::Ready => step is Proceed,
            GateEvent::Fail(e) => step == GateStep::<E>::Fail(e),
        },
{
    match ev {
        GateEvent::NotReady => GateStep::NotReady,
        GateEvent::Ready => GateStep::Proceed,
        GateEvent::Fail(e) => GateStep::Fail(e),
    }
}

/// Decide the write call's outcome from the submission's answer: a failure is
/// surfaced at once — nothing was accepted — while success commits all
/// `count` bytes as one message, to be followed by exactly one flush attempt
/// whose result the call discards.
pub fn write_submitted<E>(count: usize, ev: SendEvent<E>) -> (fin: WriteFinish<E>)
    ensures
        match ev {
            SendEvent::Accepted => fin == WriteFinish::<E>::Flush(count),
            SendEvent::Fail(e) => fin == WriteFinish::<E>::Fail(e),
        },
{
    match ev {
        SendEvent::Accepted => WriteFinish::Flush(count),
        SendEvent::Fail(e) => WriteFinish::Fail(e),
    }
}

/// Map one poll of the channel's flush or close operation to the call's
/// result, verbatim.
pub fn control_verbatim<E>(ev: FlushEvent<E>) -> (r: ControlResult<E>)
    ensures
        match ev {
            FlushEvent::NotReady => r is NotReady,
            FlushEvent::Done => r is Done,
            FlushEvent::Fail(e) => r == ControlResult::<E>::Fail(e),
        },
{
    match ev {
        FlushEvent::NotReady => ControlResult::NotReady,
        FlushEvent::Done => ControlResult::Done,
        FlushEvent::Fail(e) => ControlResult::Fail(e),
    }
}

/// The single outgoing message that a sequence of scatter buffers composes:
/// their contents, concatenated in order.
pub open spec fn message_of(bufs: Seq<Vec<u8>>) -> Seq<u8>
    decreases bufs.len(),
{
    if bufs.len() == 0 {
        Seq::<u8>::empty()
    } else {
        message_of(bufs.drop_last()) + bufs.last()@
    }
}

/// A sequence of empty buffers composes the empty message.
pub proof fn lemma_message_of_empties(bufs: Seq<Vec<u8>>)
    requires
        forall|i: int| 0 <= i < bufs.len() ==> bufs[i]@.len() == 0,
    ensures
        message_of(bufs) == Seq::<u8>::empty(),
    decreases bufs.len(),
{
    if bufs.len() > 0 {
        lemma_message_of_empties(bufs.drop_last());
        assert(message_of(bufs.drop_last()) + bufs.last()@ =~= Seq::<u8>::empty());
    }
}

/// Filling one buffer whose successors are all still empty extends the
/// composed message by exactly that buffer's bytes.
pub proof fn lemma_message_of_update(bufs: Seq<Vec<u8>>, j: int, v: Vec<u8>)
    requires
        0 <= j < bufs.len(),
        forall|t: int| j <= t < bufs.len() ==> bufs[t]@.len() == 0,
    ensures
        message_of(bufs.update(j, v)) == message_of(bufs) + v@,
    decreases bufs.len(),
{
    if j == bufs.len() - 1 {
        assert(bufs.update(j, v).drop_last() =~= bufs.drop_last());
        assert(bufs.update(j, v).last() == v);
        assert(message_of(bufs.drop_last()) + bufs.last()@ =~= message_of(bufs.drop_last()));
        assert(message_of(bufs) + v@ =~= message_of(bufs.drop_last()) + v@);
    } else {
        lemma_message_of_update(bufs.drop_last(), j, v);
        assert(bufs.update(j, v).drop_last() =~= bufs.drop_last().update(j, v));
        assert(bufs.update(j, v).last() == bufs.last());
        assert((message_of(bufs.drop_last()) + v@) + bufs.last()@ =~= message_of(bufs.drop_last())
            + v@);
        assert(message_of(bufs) =~= message_of(bufs.drop_last()));
        assert(message_of(bufs) + v@ =~= message_of(bufs.drop_last()) + v@);
    }
}

/// The total capacity of the first `n` destination buffers.
pub open spec fn len_sum(lens: Seq<usize>, n: int) -> int
    decreases n,
{
    if n <= 0 {
        0
    } else {
        len_sum(lens, n - 1) + lens[n - 1]
    }
}

/// Capacity only grows with more buffers.
pub proof fn lemma_len_sum_mono(lens: Seq<usize>, a: int, b: int)
    requires
        0 <= a <= b <= lens.len(),
    ensures
        len_sum(lens, a) <= len_sum(lens, b),
    decreases b,
{
    if a < b {
        lemma_len_sum_mono(lens, a, b - 1);
    }
}

/// Zero total capacity means every buffer in it is zero-length.
pub proof fn lemma_len_sum_zero_all(lens: Seq<usize>, n: int)
    requires
        0 <= n <= lens.len(),
        len_sum(lens, n) == 0,
    ensures
        forall|t: int| 0 <= t < n ==> lens[t] == 0,
    decreases n,
{
    if n > 0 {
        lemma_len_sum_mono(lens, 0, n - 1);
        lemma_len_sum_zero_all(lens, n - 1);
    }
}

/// A run of zero-length buffers adds no capacity.
pub proof fn lemma_len_sum_zeros(lens: Seq<usize>, a: int, b: int)
    requires
        0 <= a <= b <= lens.len(),
        forall|t: int| a <= t < b ==> lens[t] == 0,
    ensures
        len_sum(lens, a) == len_sum(lens, b),
    decreases b,
{
    if a < b {
        lemma_len_sum_zeros(lens, a, b - 1);
    }
}

/// Concatenating one more buffer extends the message by exactly its bytes.
pub proof fn lemma_message_of_take_succ(bufs: Seq<Vec<u8>>, i: int)
    requires
        0 <= i < bufs.len(),
    ensures
        message_of(bufs.take(i + 1)) == message_of(bufs.take(i)) + bufs[i]@,
{
    assert(bufs.take(i + 1).drop_last() =~= bufs.take(i));
    assert(bufs.take(i + 1).last() == bufs[i]);
}

/// Build the one message that a vectored write submits: every scatter buffer,
/// in order, as a single chunk. One write call is one message on the wire,
/// however many buffers compose it.
pub fn assemble_message(bufs: &Vec<Vec<u8>>) -> (msg: Vec<u8>)
    ensures
        msg@ == message_of(bufs@),
{
    let mut msg: Vec<u8> = Vec::new();
    let mut i: usize = 0;
    while i < bufs.len()
        invariant
            i <= bufs@.len(),
            msg@ == message_of(bufs@.take(i as int)),
        decreases bufs@.len() - i,
    {
        let b = &bufs[i];
        let mut j: usize = 0;
        while j < b.len()
            invariant
                j <= b@.len(),
                i < bufs@.len(),
                b == &bufs[i as int],
                msg@ == message_of(bufs@.take(i as int)) + b@.take(j as int),
            decreases b@.len() - j,
        {
            msg.push(b[j]);
            j += 1;
        }
        proof {
            lemma_message_of_take_succ(bufs@, i as int);
            assert(b@.take(b@.len() as int) =~= b@);
        }
        i += 1;
    }
    proof {
        assert(bufs@.take(bufs@.len() as int) =~= bufs@);
    }
    msg
}

} // verus!
