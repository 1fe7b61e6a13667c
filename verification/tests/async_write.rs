// The behaviour of single-buffer writes:
//
// - nothing is submitted if the readiness poll is pending or fails
// - on success, the byte count reported is the whole input
// - the sink is flushed exactly once per accepted write
// - readiness errors and submission errors surface at once
// - a flush error surfaces on the next write call

use async_io_stream::channel::{FlushAction, ReadyAction, ScriptChannel, SendAction};
use async_io_stream::err::ErrKind;
use async_io_stream::outcome::WriteResult;
use async_io_stream::wsio::WsIo;

fn write_tester(
    ra: Vec<ReadyAction>,
    sa: Vec<SendAction>,
    fa: Vec<FlushAction>,
    data: Vec<u8>,
) -> (WsIo, WriteResult<ErrKind>) {
    let mut wrap = WsIo::new(ScriptChannel::sink(ra, sa, fa));
    let out = wrap.write(&data);
    (wrap, out)
}

// Return pending from the readiness poll.
#[test]
fn async_write_poll_ready_pending() {
    let ra = vec![ReadyAction::Pending];
    let sa = vec![SendAction::Accept];
    let fa = vec![FlushAction::Done];

    let data = vec![1, 1];

    let (wrap, out) = write_tester(ra, sa, fa, data);

    assert!(matches!(out, WriteResult::NotReady));

    assert_eq!(wrap.inner().sink.ready_polled, 1);
    assert_eq!(wrap.inner().sink.sends, 0);
    assert_eq!(wrap.inner().sink.flushes, 0);
    assert_eq!(wrap.inner().sink.items.len(), 0);
}

// Return errors from the readiness poll.
#[test]
fn async_write_poll_ready_error() {
    let ra = vec![ReadyAction::Fail(ErrKind::NotConnected)];
    let sa = vec![SendAction::Accept];
    let fa = vec![FlushAction::Done];

    let data = vec![1, 1];

    let (wrap, out) = write_tester(ra, sa, fa, data);

    assert!(matches!(out, WriteResult::Fail(e) if e == ErrKind::NotConnected));

    assert_eq!(wrap.inner().sink.ready_polled, 1);
    assert_eq!(wrap.inner().sink.sends, 0);
    assert_eq!(wrap.inner().sink.flushes, 0);
    assert_eq!(wrap.inner().sink.items.len(), 0);
}

// Normal use case.
#[test]
fn async_write_normal_use() {
    let ra = vec![ReadyAction::Ready];
    let sa = vec![SendAction::Accept];
    let fa = vec![FlushAction::Done];

    let data = vec![1, 1];

    let (wrap, out) = write_tester(ra, sa, fa, data);

    assert!(matches!(out, WriteResult::Accepted(n) if n == 2));

    assert_eq!(wrap.inner().sink.ready_polled, 1);
    assert_eq!(wrap.inner().sink.sends, 1);
    assert_eq!(wrap.inner().sink.flushes, 1);
    assert_eq!(wrap.inner().sink.items.len(), 1);
    assert_eq!(wrap.inner().sink.items[0], vec![1, 1]);
}

// Return errors from the submission.
#[test]
fn async_write_send_error() {
    let ra = vec![ReadyAction::Ready];
    let sa = vec![SendAction::Fail(ErrKind::NotConnected)];
    let fa = vec![FlushAction::Done];

    let data = vec![1, 1];

    let (wrap, out) = write_tester(ra, sa, fa, data);

    assert!(matches!(out, WriteResult::Fail(e) if e == ErrKind::NotConnected));

    assert_eq!(wrap.inner().sink.ready_polled, 1);
    assert_eq!(wrap.inner().sink.sends, 1);
    assert_eq!(wrap.inner().sink.flushes, 0);
    assert_eq!(wrap.inner().sink.items.len(), 0);
}

// A flush error is returned from the next write call, without touching the
// sink again.
#[test]
fn async_write_flush_error_return_from_poll_write() {
    let ra = vec![ReadyAction::Ready];
    let sa = vec![SendAction::Accept];
    let fa = vec![FlushAction::Fail(ErrKind::NotConnected)];

    let data = vec![1, 1];

    let (mut wrap, out) = write_tester(ra, sa, fa, data);

    assert!(matches!(out, WriteResult::Accepted(n) if n == 2));

    assert_eq!(wrap.inner().sink.ready_polled, 1);
    assert_eq!(wrap.inner().sink.sends, 1);
    assert_eq!(wrap.inner().sink.flushes, 1);
    assert_eq!(wrap.inner().sink.items.len(), 1);
    assert_eq!(wrap.inner().sink.items[0], vec![1, 1]);

    let out = wrap.write(&vec![1]);

    assert!(matches!(out, WriteResult::Fail(e) if e == ErrKind::NotConnected));
    assert_eq!(wrap.inner().sink.ready_polled, 1);
    assert_eq!(wrap.inner().sink.flushes, 1);
}

// A flush error is returned from the next vectored write call, without
// touching the sink again.
#[test]
fn async_write_flush_error_return_from_poll_write_vectored() {
    let ra = vec![ReadyAction::Ready];
    let sa = vec![SendAction::Accept];
    let fa = vec![FlushAction::Fail(ErrKind::NotConnected)];

    let data = vec![1, 1];

    let (mut wrap, out) = write_tester(ra, sa, fa, data);

    assert!(matches!(out, WriteResult::Accepted(n) if n == 2));

    assert_eq!(wrap.inner().sink.ready_polled, 1);
    assert_eq!(wrap.inner().sink.sends, 1);
    assert_eq!(wrap.inner().sink.flushes, 1);
    assert_eq!(wrap.inner().sink.items.len(), 1);
    assert_eq!(wrap.inner().sink.items[0], vec![1, 1]);

    let out = wrap.write_vectored(&vec![vec![]]);

    assert!(matches!(out, WriteResult::Fail(e) if e == ErrKind::NotConnected));
    assert_eq!(wrap.inner().sink.ready_polled, 1);
    assert_eq!(wrap.inner().sink.flushes, 1);
}
