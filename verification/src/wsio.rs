use vstd::prelude::*;
use crate::adapter::{
    lemma_len_sum_mono, lemma_len_sum_zero_all, lemma_len_sum_zeros, lemma_message_of_empties,
    lemma_message_of_update, len_sum, message_of, vec_next, StreamAdapter,
};
use crate::adapter::{control_verbatim, write_gate, write_submitted};
use crate::channel::{copy_bytes, Action, FlushAction, ReadyAction, ScriptChannel, ScriptSink, SendAction};
use crate::err::ErrKind;
use crate::event::{NextEvent, WakeMode};
use crate::model::{
    empty_outs, lemma_vec_model_skip_zeros, pending_model, read_model, read_pull, vec_read_model,
    views_of,
};
use crate::outcome::{
    ControlResult, GateStep, ReadOutcome, ReadResult, ReadStep, VecDecision, VecStatus, VecStep,
    WriteFinish, WriteResult,
};
use crate::pending::PendingRead;

verus! {

/// A byte-stream endpoint over a scripted message channel: the adapter's
/// state machine assembled with a [`ScriptChannel`] into complete read,
/// write, flush and close calls, loops included.
pub struct WsIo {
    /// The owned message channel.
    pub inner: ScriptChannel,
    /// The buffering state machine.
    pub adapter: StreamAdapter<ErrKind>,
}

impl WsIo {
    /// The adapter never loses or invents a byte: everything the channel has
    /// produced has either been handed to the caller or is still buffered, in
    /// order. Reads preserve this, so the bytes observable across any series
    /// of read calls are exactly the concatenation of the produced messages.
    pub open spec fn wf(&self) -> bool {
        &&& self.adapter.wf()
        &&& self.inner.wf()
        &&& self.adapter.delivered@ + self.adapter.buffered() == self.inner.produced()
        // the latch records real exhaustion: once it is set, the whole script
        // has been consumed
        &&& (self.adapter.pending is Ended ==> self.inner.source.next
            == self.inner.source.actions@.len())
    }

    /// Create a new endpoint over the given channel.
    pub fn new(inner: ScriptChannel) -> (w: Self)
        requires
            inner.wf(),
        ensures
            w.wf(),
            w.inner == inner,
            w.adapter.pending is Empty,
            w.adapter.write_err is None,
            w.adapter.delivered@ == inner.produced(),
    {
        let mut adapter = StreamAdapter::new();
        proof {
            adapter.delivered@ = inner.produced();
        }
        WsIo { inner, adapter }
    }

    /// Get a reference to the inner channel.
    pub fn inner(&self) -> (r: &ScriptChannel)
        ensures
            r == &self.inner,
    {
        &self.inner
    }

    /// Get a mutable reference to the inner channel.
    ///
    /// Feeding the channel through this reference bypasses the adapter, so
    /// `wf` is forfeited until the books balance again.
    pub fn inner_mut(&mut self) -> (r: &mut ScriptChannel)
        ensures
            *r == old(self).inner,
            *final(self) == (WsIo { inner: *final(r), adapter: old(self).adapter }),
    {
        &mut self.inner
    }

    /// Everything one read call promises, relating the endpoint before the
    /// call (`pre`), after it (`post`), the capacity asked for, and the
    /// result.
    pub open spec fn read_post(pre: WsIo, post: WsIo, cap: usize, r: ReadResult<ErrKind>) -> bool {
        // the invariant is preserved; the script, the sink and the write-side
        // state are untouched
        &&& post.wf()
        &&& post.inner.source.actions == pre.inner.source.actions
        &&& post.inner.sink == pre.inner.sink
        &&& post.adapter.write_err == pre.adapter.write_err
        // byte-order preservation: the returned bytes extend the delivery
        // history, and with `wf` they are exactly the head of what was
        // buffered plus what the channel produced during this call
        &&& (r matches ReadResult::Bytes(v) ==> v@.len() <= cap && post.adapter.delivered@
            == pre.adapter.delivered@ + v@)
        &&& (!(r is Bytes) ==> post.adapter.delivered@ == pre.adapter.delivered@)
        // the channel's production only grows, at the tail
        &&& pre.inner.produced().is_prefix_of(post.inner.produced())
        // poll accounting: one poll per consumed answer, plus the single poll
        // that can latch the end of the stream
        &&& pre.inner.source.next <= post.inner.source.next
        &&& post.inner.source.polled - pre.inner.source.polled == post.inner.source.next
            - pre.inner.source.next + (if post.adapter.pending is Ended && !(pre.adapter.pending
            is Ended) {
            1int
        } else {
            0int
        })
        // no spurious "not ready" after progress: it only arises with nothing
        // buffered, nothing produced, and the source's answer was "pending"
        &&& (r is NotReady ==> {
            &&& pre.adapter.pending is Empty
            &&& post.adapter.pending is Empty
            &&& pre.inner.source.next < post.inner.source.next
            &&& post.inner.source.actions@[post.inner.source.next - 1] is Pending
        })
        // end-of-stream latch: answered from the latch alone, without polling
        &&& (pre.adapter.pending is Ended ==> {
            &&& r matches ReadResult::Bytes(v) && v@.len() == 0
            &&& post.adapter.pending is Ended
            &&& post.inner == pre.inner
            &&& post.adapter.delivered@ == pre.adapter.delivered@
        })
        // a deferred error is surfaced exactly once, with zero bytes, without
        // polling
        &&& (pre.adapter.pending matches PendingRead::DeferredError(e) ==> r
            == ReadResult::<ErrKind>::Fail(e) && post.inner == pre.inner)
        // every failure has a provenance: the deferred one, or a failing
        // answer consumed before any byte of this call was produced
        &&& (r matches ReadResult::Fail(e) ==> post.adapter.pending is Empty && (
        pre.adapter.pending == PendingRead::<ErrKind>::DeferredError(e) || (pre.adapter.pending
            is Empty && pre.inner.source.next < post.inner.source.next
            && post.inner.source.actions@[post.inner.source.next - 1] == Action::Fail(e))))
        // a zero-length read never disturbs a buffered chunk
        &&& (cap == 0 && pre.adapter.pending is Chunk ==> {
            &&& r matches ReadResult::Bytes(v) && v@.len() == 0
            &&& post.adapter.pending == pre.adapter.pending
            &&& post.inner == pre.inner
        })
        // bytes stay buffered only because the caller's buffer is full
        &&& (post.adapter.pending is Chunk ==> (r matches ReadResult::Bytes(v) && v@.len() == cap))
        // a deferred error arises exactly from a failing answer consumed after
        // this call had already produced bytes: deferring is never losing
        &&& (post.adapter.pending matches PendingRead::DeferredError(e) ==> {
            &&& pre.inner.source.next < post.inner.source.next
            &&& post.inner.source.actions@[post.inner.source.next - 1] == Action::Fail(e)
            &&& (r matches ReadResult::Bytes(v) && v@.len() > 0)
        })
        // a short answer has a reason: the stream ended, an error was
        // deferred, or the source had nothing more that was ready
        &&& (r matches ReadResult::Bytes(v) && v@.len() < cap ==> {
            ||| post.adapter.pending is Ended
            ||| post.adapter.pending is DeferredError
            ||| (post.adapter.pending is Empty && pre.inner.source.next < post.inner.source.next
                && post.inner.source.actions@[post.inner.source.next - 1] is Pending)
        })
        // zero bytes with no error at nonzero capacity is exactly the
        // end-of-stream signal
        &&& (r matches ReadResult::Bytes(v) && v@.len() == 0 && cap > 0 ==> post.adapter.pending
            is Ended)
        // a failing answer is never consumed and dropped: it is the last
        // answer this call consumed, and is returned now or owed as the
        // deferred error
        &&& (forall|t: int|
            pre.inner.source.next <= t < post.inner.source.next ==> ((#[trigger] post.inner.source.actions@[t]) matches Action::Fail(k)
                ==> t == post.inner.source.next - 1 && (r == ReadResult::<ErrKind>::Fail(k)
                || post.adapter.pending == PendingRead::<ErrKind>::DeferredError(k))))
        // the whole call equals the pure model of its inputs: the bytes, the
        // outcome, the final state, the script position and the poll count
        &&& ({
            let m = read_model(
                pending_model(pre.adapter.pending),
                pre.inner.source.actions@,
                pre.inner.source.next as int,
                cap as int,
            );
            &&& match m.status {
                ReadOutcome::Delivered => (r matches ReadResult::Bytes(v) && v@ == m.out),
                ReadOutcome::NotReady => r is NotReady,
                ReadOutcome::Fail(k) => r == ReadResult::<ErrKind>::Fail(k),
            }
            &&& pending_model(post.adapter.pending) == m.pending
            &&& post.inner.source.next == m.next
            &&& post.inner.source.polled == pre.inner.source.polled + m.polls
        })
    }

    /// One read call of up to `cap` bytes, per the read-path algorithm:
    /// deferred state first, then buffered bytes, then the channel is polled
    /// while the buffer has room — with the caller's real wake only as long
    /// as no byte has been produced. A zero-capacity read with nothing stored
    /// still makes its one probe poll, and a message it pulls is kept whole.
    pub fn read(&mut self, cap: usize) -> (r: ReadResult<ErrKind>)
        requires
            old(self).wf(),
            old(self).inner.poll_headroom(),
        ensures
            Self::read_post(*old(self), *final(self), cap, r),
    {
        self.read_with(cap, true)
    }

    /// The read loop, with the wake discipline of its first probe chosen by
    /// the caller: the vectored path reads every buffer after the first with
    /// wakes discarded.
    fn read_with(&mut self, cap: usize, real_wake: bool) -> (r: ReadResult<ErrKind>)
        requires
            old(self).wf(),
            old(self).inner.poll_headroom() || old(self).adapter.pending is Ended,
        ensures
            Self::read_post(*old(self), *final(self), cap, r),
    {
        let ghost pre = *self;
        let mut out: Vec<u8> = Vec::new();
        let mut step = self.adapter.read_begin(&mut out, cap, real_wake);
        proof {
            if out@.len() == 0 {
                assert(out@ =~= Seq::<u8>::empty());
            }
            match pre.adapter.pending {
                PendingRead::Chunk { bytes: b0, cursor: c0 } => {
                    let rem = b0@.skip(c0 as int);
                    assert(out@ =~= rem.take(out@.len() as int));
                    if (cap as int) < rem.len() {
                        assert(b0@.skip(c0 + cap) =~= rem.skip(cap as int));
                    }
                    if out@.len() < cap {
                        assert(out@ =~= rem);
                    }
                },
                _ => {},
            }
        }
        loop
            invariant
                pre == *old(self),
                self.adapter.wf(),
                self.inner.wf(),
                self.adapter.write_err == pre.adapter.write_err,
                self.inner.source.actions == pre.inner.source.actions,
                self.inner.sink == pre.inner.sink,
                out@.len() <= cap,
                self.adapter.delivered@ == pre.adapter.delivered@ + out@,
                self.adapter.delivered@ + self.adapter.buffered() == self.inner.produced(),
                pre.inner.produced().is_prefix_of(self.inner.produced()),
                pre.inner.source.next <= self.inner.source.next,
                self.inner.source.polled - pre.inner.source.polled == self.inner.source.next
                    - pre.inner.source.next + (if self.adapter.pending is Ended
                    && !(pre.adapter.pending is Ended) {
                    1int
                } else {
                    0int
                }),
                // while polling goes on, nothing is buffered and there is room
                (step matches ReadStep::Poll(_) ==> {
                    &&& self.adapter.pending is Empty
                    &&& out@.len() <= cap
                    &&& (out@.len() < cap || cap == 0)
                    &&& self.inner.poll_headroom()
                }),
                (step matches ReadStep::Poll(_) && out@.len() == 0 ==> pre.adapter.pending
                    is Empty),
                // the settled outcomes, with their provenance
                (step == ReadStep::<ErrKind>::Done(ReadOutcome::<ErrKind>::NotReady) ==> {
                    &&& out@.len() == 0
                    &&& pre.adapter.pending is Empty
                    &&& self.adapter.pending is Empty
                    &&& pre.inner.source.next < self.inner.source.next
                    &&& self.inner.source.actions@[self.inner.source.next - 1] is Pending
                }),
                (step matches ReadStep::Done(ReadOutcome::Fail(e)) ==> {
                    &&& out@.len() == 0
                    &&& self.adapter.pending is Empty
                    &&& (pre.adapter.pending == PendingRead::<ErrKind>::DeferredError(e) || (
                    pre.adapter.pending is Empty && pre.inner.source.next < self.inner.source.next
                        && self.inner.source.actions@[self.inner.source.next - 1] == Action::Fail(
                        e,
                    )))
                }),
                (self.adapter.pending is Chunk ==> step == ReadStep::<ErrKind>::Done(
                    ReadOutcome::<ErrKind>::Delivered,
                ) && out@.len() == cap),
                (step == ReadStep::<ErrKind>::Done(ReadOutcome::<ErrKind>::Delivered)
                    && out@.len() < cap ==> {
                    ||| self.adapter.pending is Ended
                    ||| self.adapter.pending is DeferredError
                    ||| (self.adapter.pending is Empty && pre.inner.source.next
                        < self.inner.source.next
                        && self.inner.source.actions@[self.inner.source.next - 1] is Pending)
                }),
                (pre.adapter.pending is Ended ==> {
                    &&& step == ReadStep::<ErrKind>::Done(ReadOutcome::<ErrKind>::Delivered)
                    &&& out@.len() == 0
                    &&& self.adapter.pending is Ended
                    &&& self.inner == pre.inner
                }),
                (pre.adapter.pending matches PendingRead::DeferredError(e) ==> step
                    == ReadStep::<ErrKind>::Done(ReadOutcome::<ErrKind>::Fail(e)) && self.inner
                    == pre.inner),
                (cap == 0 && pre.adapter.pending is Chunk ==> {
                    &&& step == ReadStep::<ErrKind>::Done(ReadOutcome::<ErrKind>::Delivered)
                    &&& out@.len() == 0
                    &&& self.adapter.pending == pre.adapter.pending
                    &&& self.inner == pre.inner
                }),
                (self.adapter.pending matches PendingRead::DeferredError(e) ==> {
                    &&& pre.inner.source.next < self.inner.source.next
                    &&& self.inner.source.actions@[self.inner.source.next - 1] == Action::Fail(e)
                    &&& out@.len() > 0
                    &&& step == ReadStep::<ErrKind>::Done(ReadOutcome::<ErrKind>::Delivered)
                }),
                pre.wf(),
                (self.adapter.pending is Ended ==> self.inner.source.next
                    == self.inner.source.actions@.len()),
                (step == ReadStep::<ErrKind>::Done(ReadOutcome::<ErrKind>::Delivered) && out@.len()
                    == 0 && cap > 0 ==> self.adapter.pending is Ended),
                // no failing answer is consumed and passed over
                (step matches ReadStep::Poll(_) ==> forall|t: int|
                    pre.inner.source.next <= t < self.inner.source.next ==> !((
                    #[trigger] self.inner.source.actions@[t]) is Fail)),
                (step matches ReadStep::Done(_) ==> forall|t: int|
                    pre.inner.source.next <= t < self.inner.source.next ==> ((
                    #[trigger] self.inner.source.actions@[t]) matches Action::Fail(k) ==> t
                        == self.inner.source.next - 1 && (step == ReadStep::<ErrKind>::Done(
                        ReadOutcome::<ErrKind>::Fail(k),
                    ) || self.adapter.pending == PendingRead::<ErrKind>::DeferredError(k)))),
                // the call tracks the pure model: what remains to happen is
                // the model of the current suspension point
                ({
                    let m = read_model(
                        pending_model(pre.adapter.pending),
                        pre.inner.source.actions@,
                        pre.inner.source.next as int,
                        cap as int,
                    );
                    &&& (step matches ReadStep::Poll(_) ==> {
                        let c = read_pull(
                            out@,
                            self.inner.source.actions@,
                            self.inner.source.next as int,
                            cap as int,
                        );
                        &&& m.out == c.out
                        &&& m.status == c.status
                        &&& m.pending == c.pending
                        &&& m.next == c.next
                        &&& m.polls == self.inner.source.polled - pre.inner.source.polled
                            + c.polls
                    })
                    &&& (step matches ReadStep::Done(o) ==> {
                        &&& m.out == out@
                        &&& m.status == o
                        &&& m.pending == pending_model(self.adapter.pending)
                        &&& m.next == self.inner.source.next
                        &&& m.polls == self.inner.source.polled - pre.inner.source.polled
                    })
                }),
            decreases
                    self.inner.source.actions@.len() - self.inner.source.next,
                    (if step matches ReadStep::Poll(_) {
                        1int
                    } else {
                        0int
                    }),
        {
            match step {
                ReadStep::Done(outcome) => {
                    proof {
                        if out@.len() == 0 {
                            assert(pre.adapter.delivered@ + out@ =~= pre.adapter.delivered@);
                        }
                    }
                    return match outcome {
                        ReadOutcome::Delivered => ReadResult::Bytes(out),
                        ReadOutcome::NotReady => ReadResult::NotReady,
                        ReadOutcome::Fail(e) => ReadResult::Fail(e),
                    };
                },
                ReadStep::Poll(mode) => {
                    let ghost out0 = out@;
                    let ghost produced0 = self.inner.produced();
                    let ghost next0 = self.inner.source.next as int;
                    let ev = self.inner.poll_next(mode);
                    step = self.adapter.read_resume(&mut out, cap, real_wake, ev);
                    proof {
                        assert(out@ =~= out0 + out@.skip(out0.len() as int));
                        assert(pre.adapter.delivered@ + out@ =~= (pre.adapter.delivered@ + out0)
                            + out@.skip(out0.len() as int));
                        assert(pre.inner.produced().is_prefix_of(self.inner.produced())) by {
                            assert(produced0.is_prefix_of(self.inner.produced()));
                        }
                        let acts = self.inner.source.actions@;
                        if next0 < acts.len() {
                            match acts[next0] {
                                Action::Data(v) => {
                                    let r_ = vstd::math::min(cap - out0.len(), v@.len() as int);
                                    assert(out@ =~= out0 + v@.take(r_));
                                },
                                _ => {},
                            }
                        }
                    }
                },
            }
        }
    }

    /// One vectored read, per the vectored variant of the read path: the
    /// destination buffers are served left to right, the first through the
    /// ordinary polling path and every later one with wakes discarded; the
    /// call stops at the first buffer it cannot fill completely; zero-length
    /// buffers are skipped; and if every buffer is zero-length, one probe
    /// poll is made, matching the non-vectored empty-buffer behaviour.
    ///
    /// Destinations are given by their lengths; the call returns the bytes
    /// written into each, plus the outcome with the total count.
    /// Everything one vectored read call promises, relating the endpoint
    /// before and after the call, the destination lengths, the bytes written
    /// into each destination, and the outcome.
    pub open spec fn vec_read_post(
        pre: WsIo,
        post: WsIo,
        lens: Seq<usize>,
        outs: Seq<Vec<u8>>,
        status: VecStatus<ErrKind>,
    ) -> bool {
        &&& post.wf()
        &&& post.inner.source.actions == pre.inner.source.actions
        &&& post.inner.sink == pre.inner.sink
        &&& post.adapter.write_err == pre.adapter.write_err
        &&& outs.len() == lens.len()
        &&& (forall|i: int| 0 <= i < lens.len() ==> #[trigger] outs[i]@.len() <= lens[i])
        // left to right: once a buffer is left short, no later one is touched
        &&& (forall|i: int, j: int|
            0 <= i < j < lens.len() && outs[i]@.len() < lens[i] ==> outs[j]@.len() == 0)
        // byte-order preservation, as for the single read
        &&& post.adapter.delivered@ == pre.adapter.delivered@ + message_of(outs)
        &&& (status matches VecStatus::Read(n) ==> n == message_of(outs).len())
        &&& (!(status is Read) ==> message_of(outs).len() == 0 && post.adapter.delivered@
            == pre.adapter.delivered@)
        &&& pre.inner.produced().is_prefix_of(post.inner.produced())
        // poll accounting, as for the single read
        &&& pre.inner.source.next <= post.inner.source.next
        &&& post.inner.source.polled - pre.inner.source.polled == post.inner.source.next
            - pre.inner.source.next + (if post.adapter.pending is Ended && !(pre.adapter.pending
            is Ended) {
            1int
        } else {
            0int
        })
        // end-of-stream latch
        &&& (pre.adapter.pending is Ended ==> status == VecStatus::<ErrKind>::Read(0)
            && post.inner == pre.inner && post.adapter.pending is Ended)
        // a deferred error is surfaced exactly once, without polling
        &&& (pre.adapter.pending matches PendingRead::DeferredError(e) ==> status
            == VecStatus::<ErrKind>::Fail(e) && post.inner == pre.inner && post.adapter.pending
            is Empty)
        // the whole call equals the pure model of its inputs: the bytes of
        // every destination buffer, the outcome, the final state, the script
        // position and the poll count
        &&& ({
            let vm = vec_read_model(
                pending_model(pre.adapter.pending),
                pre.inner.source.actions@,
                pre.inner.source.next as int,
                lens,
                0,
                0,
            );
            &&& views_of(outs) == vm.outs
            &&& match vm.status {
                ReadOutcome::Delivered => status is Read,
                ReadOutcome::NotReady => status is NotReady,
                ReadOutcome::Fail(k) => status == VecStatus::<ErrKind>::Fail(k),
            }
            &&& pending_model(post.adapter.pending) == vm.pending
            &&& post.inner.source.next == vm.next
            &&& post.inner.source.polled == pre.inner.source.polled + vm.polls
        })
    }

    pub fn read_vectored(&mut self, lens: &Vec<usize>) -> (r: (Vec<Vec<u8>>, VecStatus<ErrKind>))
        requires
            old(self).wf(),
            old(self).inner.poll_headroom(),
            len_sum(lens@, lens@.len() as int) <= usize::MAX,
        ensures
            Self::vec_read_post(*old(self), *final(self), lens@, r.0@, r.1),
    {
        let ghost pre = *self;
        let total_bufs = lens.len();
        let mut outs: Vec<Vec<u8>> = Vec::new();
        let mut t: usize = 0;
        while t < lens.len()
            invariant
                t == outs@.len() <= lens@.len(),
                forall|i: int| 0 <= i < t ==> #[trigger] outs@[i]@.len() == 0,
            decreases lens@.len() - t,
        {
            outs.push(Vec::new());
            t += 1;
        }
        proof {
            lemma_message_of_empties(outs@);
            assert(pre.adapter.delivered@ + message_of(outs@) =~= pre.adapter.delivered@);
            let vm = vec_read_model(
                pending_model(pre.adapter.pending),
                pre.inner.source.actions@,
                pre.inner.source.next as int,
                lens@,
                0,
                0,
            );
            assert(vm.outs =~= views_of(outs@).take(0) + vm.outs);
        }
        let mut idx: usize = 0;
        let mut have: usize = 0;
        loop
            invariant
                pre == *old(self),
                pre.wf(),
                pre.inner.poll_headroom(),
                len_sum(lens@, lens@.len() as int) <= usize::MAX,
                self.adapter.wf(),
                self.inner.wf(),
                (self.adapter.pending is Ended ==> self.inner.source.next
                    == self.inner.source.actions@.len()),
                self.adapter.write_err == pre.adapter.write_err,
                self.inner.source.actions == pre.inner.source.actions,
                self.inner.sink == pre.inner.sink,
                self.adapter.delivered@ + self.adapter.buffered() == self.inner.produced(),
                lens@.len() == total_bufs,
                idx <= lens@.len(),
                outs@.len() == lens@.len(),
                forall|i: int| 0 <= i < lens@.len() ==> #[trigger] outs@[i]@.len() <= lens@[i],
                forall|i: int| 0 <= i < idx ==> #[trigger] outs@[i]@.len() == lens@[i],
                forall|i: int| idx <= i < lens@.len() ==> #[trigger] outs@[i]@.len() == 0,
                have == len_sum(lens@, idx as int),
                have == message_of(outs@).len(),
                self.adapter.delivered@ == pre.adapter.delivered@ + message_of(outs@),
                pre.inner.produced().is_prefix_of(self.inner.produced()),
                // polling may still suspend only while nothing was produced
                pre.inner.source.next <= self.inner.source.next,
                self.inner.source.polled - pre.inner.source.polled == self.inner.source.next
                    - pre.inner.source.next + (if self.adapter.pending is Ended
                    && !(pre.adapter.pending is Ended) {
                    1int
                } else {
                    0int
                }),
                self.adapter.pending is Ended || self.inner.poll_headroom(),
                (pre.adapter.pending is Ended ==> self.adapter.pending is Ended && self.inner
                    == pre.inner && have == 0),
                (pre.adapter.pending matches PendingRead::DeferredError(e) ==> self.adapter.pending
                    == pre.adapter.pending && self.inner == pre.inner && have == 0),
                (have > 0 ==> !(pre.adapter.pending is Ended) && !(pre.adapter.pending
                    is DeferredError)),
                // the call tracks the pure model: what remains to happen is
                // the model of the buffers not yet served
                ({
                    let vm = vec_read_model(
                        pending_model(pre.adapter.pending),
                        pre.inner.source.actions@,
                        pre.inner.source.next as int,
                        lens@,
                        0,
                        0,
                    );
                    let cur = vec_read_model(
                        pending_model(self.adapter.pending),
                        self.inner.source.actions@,
                        self.inner.source.next as int,
                        lens@,
                        idx as int,
                        have as int,
                    );
                    &&& vm.outs == views_of(outs@).take(idx as int) + cur.outs
                    &&& vm.status == cur.status
                    &&& vm.pending == cur.pending
                    &&& vm.next == cur.next
                    &&& vm.polls == self.inner.source.polled - pre.inner.source.polled + cur.polls
                }),
            decreases lens@.len() - idx,
        {
            match vec_next(lens, idx, have) {
                VecStep::Finished => {
                    proof {
                        let acts = self.inner.source.actions@;
                        lemma_vec_model_skip_zeros(
                            pending_model(self.adapter.pending),
                            acts,
                            self.inner.source.next as int,
                            lens@,
                            idx as int,
                            lens@.len() as int,
                            have as int,
                        );
                        let vm = vec_read_model(
                            pending_model(pre.adapter.pending),
                            pre.inner.source.actions@,
                            pre.inner.source.next as int,
                            lens@,
                            0,
                            0,
                        );
                        assert(empty_outs(lens@.len() - idx) + Seq::<Seq<u8>>::empty()
                            =~= empty_outs(lens@.len() - idx));
                        assert(vm.outs =~~= views_of(outs@));
                    }
                    return (outs, VecStatus::Read(have));
                },
                VecStep::Probe => {
                    proof {
                        lemma_len_sum_zero_all(lens@, idx as int);
                        lemma_message_of_empties(outs@);
                        lemma_vec_model_skip_zeros(
                            pending_model(self.adapter.pending),
                            self.inner.source.actions@,
                            self.inner.source.next as int,
                            lens@,
                            idx as int,
                            lens@.len() as int,
                            have as int,
                        );
                        let vm = vec_read_model(
                            pending_model(pre.adapter.pending),
                            pre.inner.source.actions@,
                            pre.inner.source.next as int,
                            lens@,
                            0,
                            0,
                        );
                        assert(empty_outs(lens@.len() - idx) + Seq::<Seq<u8>>::empty()
                            =~= empty_outs(lens@.len() - idx));
                        assert(vm.outs =~~= views_of(outs@));
                    }
                    let sub = self.read_with(0, true);
                    return match sub {
                        ReadResult::Bytes(_) => (outs, VecStatus::Read(0)),
                        ReadResult::NotReady => (outs, VecStatus::NotReady),
                        ReadResult::Fail(e) => (outs, VecStatus::Fail(e)),
                    };
                },
                VecStep::Buffer { idx: j, first } => {
                    proof {
                        lemma_len_sum_zeros(lens@, idx as int, j as int);
                        lemma_len_sum_mono(lens@, j as int + 1, lens@.len() as int);
                        lemma_vec_model_skip_zeros(
                            pending_model(self.adapter.pending),
                            self.inner.source.actions@,
                            self.inner.source.next as int,
                            lens@,
                            idx as int,
                            j as int,
                            have as int,
                        );
                        assert(views_of(outs@).take(j as int) =~~= views_of(outs@).take(
                            idx as int,
                        ) + empty_outs(j - idx));
                    }
                    let cap = lens[j];
                    let ghost vm = vec_read_model(
                        pending_model(pre.adapter.pending),
                        pre.inner.source.actions@,
                        pre.inner.source.next as int,
                        lens@,
                        0,
                        0,
                    );
                    let sub = self.read_with(cap, first);
                    match self.adapter.vec_absorb(have, cap, sub) {
                        VecDecision::Advance(v) => {
                            let n = v.len();
                            proof {
                                lemma_message_of_update(outs@, j as int, v);
                                assert((pre.adapter.delivered@ + message_of(outs@)) + v@
                                    =~= pre.adapter.delivered@ + (message_of(outs@) + v@));
                            }
                            outs.set(j, v);
                            proof {
                                assert(views_of(outs@).take(j + 1) =~~= views_of(outs@).take(
                                    j as int,
                                ) + seq![outs@[j as int]@]);
                                assert(vm.outs =~~= views_of(outs@).take(j + 1)
                                    + vec_read_model(
                                    pending_model(self.adapter.pending),
                                    self.inner.source.actions@,
                                    self.inner.source.next as int,
                                    lens@,
                                    j + 1,
                                    have + n,
                                ).outs);
                            }
                            have = have + n;
                            idx = j + 1;
                        },
                        VecDecision::Last(v) => {
                            let n = v.len();
                            proof {
                                lemma_message_of_update(outs@, j as int, v);
                                assert((pre.adapter.delivered@ + message_of(outs@)) + v@
                                    =~= pre.adapter.delivered@ + (message_of(outs@) + v@));
                            }
                            outs.set(j, v);
                            proof {
                                assert(vm.outs =~~= views_of(outs@));
                            }
                            return (outs, VecStatus::Read(have + n));
                        },
                        VecDecision::Finish => {
                            proof {
                                assert(empty_outs(j - idx) + empty_outs(lens@.len() - j)
                                    =~= empty_outs(lens@.len() - idx));
                                assert(vm.outs =~~= views_of(outs@));
                            }
                            return (outs, VecStatus::Read(have));
                        },
                        VecDecision::NotReady => {
                            proof {
                                assert(empty_outs(j - idx) + empty_outs(lens@.len() - j)
                                    =~= empty_outs(lens@.len() - idx));
                                assert(vm.outs =~~= views_of(outs@));
                            }
                            return (outs, VecStatus::NotReady);
                        },
                        VecDecision::Fail(e) => {
                            proof {
                                assert(empty_outs(j - idx) + empty_outs(lens@.len() - j)
                                    =~= empty_outs(lens@.len() - idx));
                                assert(vm.outs =~~= views_of(outs@));
                            }
                            return (outs, VecStatus::Fail(e));
                        },
                    }
                },
            }
        }
    }

    /// What a write call needs of the scripts: an answer for every question
    /// it will ask. A write owing a deferred failure asks none.
    pub open spec fn write_script_ok(&self) -> bool {
        self.adapter.write_err is Some || {
            &&& self.inner.sink.ready_polled < self.inner.sink.ready_actions@.len()
            &&& (self.inner.sink.ready_actions@[self.inner.sink.ready_polled as int] is Ready
                ==> {
                &&& self.inner.sink.sends < self.inner.sink.send_actions@.len()
                &&& (self.inner.sink.send_actions@[self.inner.sink.sends as int] is Accept
                    ==> self.inner.sink.flushes < self.inner.sink.flush_actions@.len())
            })
        }
    }

    /// Everything one write call promises, for the single message `msg` it
    /// submits (a plain write's bytes, or a vectored write's concatenation).
    pub open spec fn write_post(pre: WsIo, post: WsIo, msg: Seq<u8>, r: WriteResult<
        ErrKind,
    >) -> bool {
        // the read side and the source are untouched
        &&& post.adapter.pending == pre.adapter.pending
        &&& post.adapter.delivered == pre.adapter.delivered
        &&& post.inner.source == pre.inner.source
        // the scripts themselves and the close state are untouched
        &&& post.inner.sink.ready_actions == pre.inner.sink.ready_actions
        &&& post.inner.sink.send_actions == pre.inner.sink.send_actions
        &&& post.inner.sink.flush_actions == pre.inner.sink.flush_actions
        &&& post.inner.sink.close_actions == pre.inner.sink.close_actions
        &&& post.inner.sink.closes == pre.inner.sink.closes
        // a flush failure deferred by an earlier write is surfaced first,
        // exactly once, without touching the channel
        &&& (pre.adapter.write_err matches Some(e) ==> {
            &&& r == WriteResult::<ErrKind>::Fail(e)
            &&& post.adapter.write_err is None
            &&& post.inner == pre.inner
        })
        &&& (pre.adapter.write_err is None ==> {
            // send-readiness is polled exactly once; "not ready" and failures
            // propagate verbatim and nothing is submitted
            &&& post.inner.sink.ready_polled == pre.inner.sink.ready_polled + 1
            &&& match pre.inner.sink.ready_actions@[pre.inner.sink.ready_polled as int] {
                ReadyAction::Pending => {
                    &&& r is NotReady
                    &&& post.inner.sink.sends == pre.inner.sink.sends
                    &&& post.inner.sink.flushes == pre.inner.sink.flushes
                    &&& post.inner.sink.items == pre.inner.sink.items
                    &&& post.adapter.write_err is None
                },
                ReadyAction::Fail(k) => {
                    &&& r == WriteResult::<ErrKind>::Fail(k)
                    &&& post.inner.sink.sends == pre.inner.sink.sends
                    &&& post.inner.sink.flushes == pre.inner.sink.flushes
                    &&& post.inner.sink.items == pre.inner.sink.items
                    &&& post.adapter.write_err is None
                },
                // on ready, the whole input is submitted as one message
                ReadyAction::Ready => {
                    &&& post.inner.sink.sends == pre.inner.sink.sends + 1
                    &&& match pre.inner.sink.send_actions@[pre.inner.sink.sends as int] {
                        // a submission failure surfaces at once; nothing was
                        // accepted, nothing is flushed
                        SendAction::Fail(k) => {
                            &&& r == WriteResult::<ErrKind>::Fail(k)
                            &&& post.inner.sink.flushes == pre.inner.sink.flushes
                            &&& post.inner.sink.items == pre.inner.sink.items
                            &&& post.adapter.write_err is None
                        },
                        // accepted: exactly one message with all the bytes,
                        // exactly one flush attempt whose result is discarded
                        // but whose failure is owed to the next call
                        SendAction::Accept => {
                            &&& post.inner.sink.items@.len() == pre.inner.sink.items@.len() + 1
                            &&& post.inner.sink.items@.last()@ == msg
                            &&& post.inner.sink.items@.drop_last() == pre.inner.sink.items@
                            &&& post.inner.sink.flushes == pre.inner.sink.flushes + 1
                            &&& (r matches WriteResult::Accepted(n) && n == msg.len())
                            &&& post.adapter.write_err == (match pre.inner.sink.flush_actions@[pre.inner.sink.flushes as int] {
                                FlushAction::Fail(k) => Some(k),
                                _ => Option::<ErrKind>::None,
                            })
                        },
                    }
                },
            }
        })
    }

    /// Submit one assembled message: readiness, submission, then one discarded flush
    /// attempt, per the write-path algorithm.
    fn write_msg(&mut self, msg: Vec<u8>) -> (r: WriteResult<ErrKind>)
        requires
            old(self).write_script_ok(),
        ensures
            Self::write_post(*old(self), *final(self), msg@, r),
    {
        let ghost items0 = self.inner.sink.items@;
        match self.adapter.take_write_err() {
            Some(e) => WriteResult::Fail(e),
            None => {
                match write_gate(self.inner.poll_send_ready(WakeMode::Caller)) {
                    GateStep::NotReady => WriteResult::NotReady,
                    GateStep::Fail(e) => WriteResult::Fail(e),
                    GateStep::Proceed => {
                        let count = msg.len();
                        match write_submitted(count, self.inner.submit(msg)) {
                            WriteFinish::Fail(e) => WriteResult::Fail(e),
                            WriteFinish::Flush(n) => {
                                proof {
                                    assert(self.inner.sink.items@.drop_last() =~= items0);
                                }
                                let fe = self.inner.poll_flush(WakeMode::Caller);
                                self.adapter.note_flush(fe);
                                WriteResult::Accepted(n)
                            },
                        }
                    },
                }
            },
        }
    }

    /// One write call: the whole input is one outgoing message, submitted
    /// once the channel reports itself ready, followed by one flush attempt whose result
    /// is discarded — the bytes are already committed — but whose failure is
    /// owed to the next write or flush call.
    pub fn write(&mut self, data: &Vec<u8>) -> (r: WriteResult<ErrKind>)
        requires
            old(self).write_script_ok(),
        ensures
            Self::write_post(*old(self), *final(self), data@, r),
    {
        let msg = copy_bytes(data);
        self.write_msg(msg)
    }

    /// One vectored write call: the scatter buffers compose a single outgoing
    /// message — their contents concatenated in order — and the call reports
    /// the total byte count accepted.
    pub fn write_vectored(&mut self, bufs: &Vec<Vec<u8>>) -> (r: WriteResult<ErrKind>)
        requires
            old(self).write_script_ok(),
        ensures
            Self::write_post(*old(self), *final(self), crate::adapter::message_of(bufs@), r),
    {
        let msg = crate::adapter::assemble_message(bufs);
        self.write_msg(msg)
    }

    /// One explicit flush call: a flush failure deferred by an earlier write
    /// is surfaced first, exactly once; otherwise the channel's flush is
    /// polled once and its answer propagates verbatim.
    pub fn flush(&mut self) -> (r: ControlResult<ErrKind>)
        requires
            old(self).adapter.write_err is Some || old(self).inner.sink.flushes < old(
                self,
            ).inner.sink.flush_actions@.len(),
        ensures
            final(self).adapter.pending == old(self).adapter.pending,
            final(self).adapter.delivered == old(self).adapter.delivered,
            final(self).adapter.write_err is None,
            final(self).inner.source == old(self).inner.source,
            (old(self).adapter.write_err matches Some(e) ==> r == ControlResult::<ErrKind>::Fail(e)
                && final(self).inner == old(self).inner),
            (old(self).adapter.write_err is None ==> {
                &&& final(self).inner.sink.flushes == old(self).inner.sink.flushes + 1
                &&& final(self).inner.sink == (ScriptSink {
                    flushes: final(self).inner.sink.flushes,
                    ..old(self).inner.sink
                })
                &&& match old(self).inner.sink.flush_actions@[old(self).inner.sink.flushes as int] {
                    FlushAction::Pending => r is NotReady,
                    FlushAction::Done => r is Done,
                    FlushAction::Fail(k) => r == ControlResult::<ErrKind>::Fail(k),
                }
            }),
    {
        match self.adapter.take_write_err() {
            Some(e) => ControlResult::Fail(e),
            None => control_verbatim(self.inner.poll_flush(WakeMode::Caller)),
        }
    }

    /// One close call: the channel's close is polled once and its answer
    /// propagates verbatim; re-polling after "not ready" is the caller's
    /// business, as with any polled operation.
    pub fn close(&mut self) -> (r: ControlResult<ErrKind>)
        requires
            old(self).inner.sink.closes < old(self).inner.sink.close_actions@.len(),
        ensures
            final(self).adapter == old(self).adapter,
            final(self).inner.source == old(self).inner.source,
            final(self).inner.sink.closes == old(self).inner.sink.closes + 1,
            final(self).inner.sink == (ScriptSink {
                closes: final(self).inner.sink.closes,
                ..old(self).inner.sink
            }),
            match old(self).inner.sink.close_actions@[old(self).inner.sink.closes as int] {
                FlushAction::Pending => r is NotReady,
                FlushAction::Done => r is Done,
                FlushAction::Fail(k) => r == ControlResult::<ErrKind>::Fail(k),
            },
    {
        control_verbatim(self.inner.poll_close(WakeMode::Caller))
    }
}

} // verus!
