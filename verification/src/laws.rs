use vstd::prelude::*;
use crate::adapter::message_of;
use crate::channel::{produced_upto, Action};
use crate::err::ErrKind;
use crate::outcome::{ReadResult, VecStatus, WriteResult};
use crate::pending::PendingRead;
use crate::wsio::WsIo;

verus! {

/// Byte-order preservation: at every moment, the bytes already handed to the
/// caller followed by the bytes still buffered are exactly the concatenation
/// of the messages the channel has produced, in production order — however
/// the callers' buffer sizes sliced across message boundaries.
pub proof fn lemma_byte_order_preservation(w: &WsIo)
    requires
        w.wf(),
    ensures
        w.adapter.delivered@ + w.adapter.buffered() == w.inner.produced(),
{
}

/// Byte-order preservation at the end of the stream, as the caller observes
/// it: the moment a read with a nonzero buffer answers zero bytes with no
/// error — the idiomatic end-of-stream signal — the whole script has been
/// consumed, nothing stays buffered, and everything ever delivered is exactly
/// the concatenation of every message the source produced, in order. Reading
/// with arbitrary buffer sizes until that signal therefore yields exactly the
/// whole message stream.
pub proof fn lemma_eof_full_delivery(pre: WsIo, post: WsIo, cap: usize, v: Vec<u8>)
    requires
        pre.wf(),
        WsIo::read_post(pre, post, cap, ReadResult::Bytes(v)),
        v@.len() == 0,
        cap > 0,
    ensures
        post.adapter.pending is Ended,
        post.inner.source.next == post.inner.source.actions@.len(),
        post.adapter.delivered@ == produced_upto(
            post.inner.source.actions@,
            post.inner.source.actions@.len() as int,
        ),
{
    assert(post.adapter.delivered@ =~= post.adapter.delivered@ + post.adapter.buffered());
}

/// Byte-order preservation, call by call: the bytes one read returns,
/// followed by what stays buffered, are exactly what was buffered before the
/// call followed by what the channel produced during it — nothing reordered,
/// nothing lost, nothing invented, wherever the buffer boundary fell.
pub proof fn lemma_read_conservation(pre: WsIo, post: WsIo, cap: usize, v: Vec<u8>)
    requires
        pre.wf(),
        WsIo::read_post(pre, post, cap, ReadResult::Bytes(v)),
    ensures
        v@ + post.adapter.buffered() == pre.adapter.buffered() + post.inner.produced().skip(
            pre.inner.produced().len() as int,
        ),
{
    let d = pre.adapter.delivered@;
    let delta = post.inner.produced().skip(pre.inner.produced().len() as int);
    assert(post.inner.produced() =~= pre.inner.produced() + delta);
    assert(d + (v@ + post.adapter.buffered()) =~= (d + v@) + post.adapter.buffered());
    assert(d + (pre.adapter.buffered() + delta) =~= (d + pre.adapter.buffered()) + delta);
    lemma_cancel_common_head(d, v@ + post.adapter.buffered(), pre.adapter.buffered() + delta);
}

/// Byte-order preservation for the vectored read, call by call: the bytes
/// written across all destination buffers, in buffer order, followed by what
/// stays buffered, are exactly what was buffered before the call followed by
/// what the channel produced during it.
pub proof fn lemma_vec_read_conservation(
    pre: WsIo,
    post: WsIo,
    lens: Seq<usize>,
    outs: Seq<Vec<u8>>,
    status: VecStatus<ErrKind>,
)
    requires
        pre.wf(),
        WsIo::vec_read_post(pre, post, lens, outs, status),
    ensures
        message_of(outs) + post.adapter.buffered() == pre.adapter.buffered()
            + post.inner.produced().skip(pre.inner.produced().len() as int),
{
    let d = pre.adapter.delivered@;
    let delta = post.inner.produced().skip(pre.inner.produced().len() as int);
    assert(post.inner.produced() =~= pre.inner.produced() + delta);
    assert(d + (message_of(outs) + post.adapter.buffered()) =~= (d + message_of(outs))
        + post.adapter.buffered());
    assert(d + (pre.adapter.buffered() + delta) =~= (d + pre.adapter.buffered()) + delta);
    lemma_cancel_common_head(
        d,
        message_of(outs) + post.adapter.buffered(),
        pre.adapter.buffered() + delta,
    );
}

/// Error deferral on the vectored path: when a vectored read leaves a
/// deferred error behind — an error observed after earlier buffers were
/// already filled — the immediately following read returns it verbatim, with
/// zero bytes, exactly once, without consulting the channel.
pub proof fn lemma_vec_error_deferral(
    s0: WsIo,
    s1: WsIo,
    s2: WsIo,
    lens: Seq<usize>,
    outs: Seq<Vec<u8>>,
    st1: VecStatus<ErrKind>,
    cap2: usize,
    r2: ReadResult<ErrKind>,
    e: ErrKind,
)
    requires
        WsIo::vec_read_post(s0, s1, lens, outs, st1),
        WsIo::read_post(s1, s2, cap2, r2),
        s1.adapter.pending == PendingRead::<ErrKind>::DeferredError(e),
    ensures
        r2 == ReadResult::<ErrKind>::Fail(e),
        s2.adapter.delivered@ == s1.adapter.delivered@,
        s2.adapter.pending is Empty,
        s2.inner == s1.inner,
{
}

/// Appending behind one common head is injective.
proof fn lemma_cancel_common_head(d: Seq<u8>, x: Seq<u8>, y: Seq<u8>)
    requires
        d + x == d + y,
    ensures
        x == y,
{
    assert((d + x).len() == d.len() + x.len());
    assert((d + y).len() == d.len() + y.len());
    assert forall|i: int| 0 <= i < x.len() implies x[i] == y[i] by {
        assert((d + x)[d.len() + i] == x[i]);
        assert((d + y)[d.len() + i] == y[i]);
    }
    assert(x =~= y);
}

/// Repeated reads concatenate: two consecutive reads, of any capacities,
/// extend the delivery history by their outputs in call order.
pub proof fn lemma_reads_concatenate(
    s0: WsIo,
    s1: WsIo,
    s2: WsIo,
    cap1: usize,
    cap2: usize,
    v1: Vec<u8>,
    v2: Vec<u8>,
)
    requires
        WsIo::read_post(s0, s1, cap1, ReadResult::Bytes(v1)),
        WsIo::read_post(s1, s2, cap2, ReadResult::Bytes(v2)),
    ensures
        s2.adapter.delivered@ == s0.adapter.delivered@ + v1@ + v2@,
{
    assert(s0.adapter.delivered@ + v1@ + v2@ =~= (s0.adapter.delivered@ + v1@) + v2@);
}

/// No spurious "not ready" after progress: a read call that reports "not
/// ready" delivered no byte, consumed no message bytes, and left nothing
/// buffered — the outcome never coexists with progress.
pub proof fn lemma_no_spurious_not_ready(pre: WsIo, post: WsIo, cap: usize)
    requires
        WsIo::read_post(pre, post, cap, ReadResult::NotReady),
        pre.wf(),
    ensures
        post.adapter.delivered@ == pre.adapter.delivered@,
        post.inner.produced() == pre.inner.produced(),
        pre.adapter.pending is Empty,
        post.adapter.pending is Empty,
{
    assert(post.inner.produced() =~= post.adapter.delivered@ + post.adapter.buffered());
    assert(pre.inner.produced() =~= pre.adapter.delivered@ + pre.adapter.buffered());
    assert(post.inner.produced() =~= pre.inner.produced());
}

/// End-of-stream latch: once exhaustion has been observed, every further read
/// returns zero bytes with no error and never consults the channel again —
/// the poll counter stands still.
pub proof fn lemma_end_of_stream_latch(pre: WsIo, post: WsIo, cap: usize, r: ReadResult<ErrKind>)
    requires
        WsIo::read_post(pre, post, cap, r),
        pre.adapter.pending is Ended,
    ensures
        r matches ReadResult::Bytes(v) && v@.len() == 0,
        post.adapter.pending is Ended,
        post.inner == pre.inner,
        post.inner.source.polled == pre.inner.source.polled,
{
}

/// Error deferral: an error that arrived after a read call had already
/// produced bytes is not lost — it is held as deferred state, and the
/// immediately following read returns it verbatim, with zero bytes, exactly
/// once, without consulting the channel.
pub proof fn lemma_error_deferral(
    s0: WsIo,
    s1: WsIo,
    s2: WsIo,
    cap1: usize,
    cap2: usize,
    r1: ReadResult<ErrKind>,
    r2: ReadResult<ErrKind>,
    e: ErrKind,
)
    requires
        WsIo::read_post(s0, s1, cap1, r1),
        WsIo::read_post(s1, s2, cap2, r2),
        s1.adapter.pending == PendingRead::<ErrKind>::DeferredError(e),
    ensures
        // it arose from a failure observed after partial data
        s1.inner.source.actions@[s1.inner.source.next - 1] == Action::Fail(e),
        r1 matches ReadResult::Bytes(v) && v@.len() > 0,
        // and is surfaced on the very next call, with zero bytes, then cleared
        r2 == ReadResult::<ErrKind>::Fail(e),
        s2.adapter.delivered@ == s1.adapter.delivered@,
        s2.adapter.pending is Empty,
        s2.inner == s1.inner,
{
}

/// Write is one message plus one flush: when the channel is immediately ready
/// and the submission is accepted, a single write call of `msg` submits
/// exactly one message holding all of `msg`'s bytes, makes exactly one flush
/// attempt, and reports every byte accepted.
pub proof fn lemma_write_one_message_one_flush(
    pre: WsIo,
    post: WsIo,
    msg: Seq<u8>,
    r: WriteResult<ErrKind>,
)
    requires
        WsIo::write_post(pre, post, msg, r),
        pre.adapter.write_err is None,
        pre.inner.sink.ready_actions@[pre.inner.sink.ready_polled as int] is Ready,
        pre.inner.sink.send_actions@[pre.inner.sink.sends as int] is Accept,
    ensures
        post.inner.sink.ready_polled == pre.inner.sink.ready_polled + 1,
        post.inner.sink.sends == pre.inner.sink.sends + 1,
        post.inner.sink.flushes == pre.inner.sink.flushes + 1,
        post.inner.sink.items@.len() == pre.inner.sink.items@.len() + 1,
        post.inner.sink.items@.last()@ == msg,
        post.inner.sink.items@.drop_last() == pre.inner.sink.items@,
        r matches WriteResult::Accepted(n) && n == msg.len(),
{
}

/// Zero-length reads are idempotent on buffered data: reading into a
/// zero-length buffer while a chunk is buffered returns zero bytes with no
/// error and leaves the buffered state and the channel exactly as they were.
pub proof fn lemma_zero_read_idempotent(pre: WsIo, post: WsIo, r: ReadResult<ErrKind>)
    requires
        WsIo::read_post(pre, post, 0, r),
        pre.adapter.pending is Chunk,
    ensures
        r matches ReadResult::Bytes(v) && v@.len() == 0,
        post.adapter.pending == pre.adapter.pending,
        post.inner == pre.inner,
{
}

} // verus!
