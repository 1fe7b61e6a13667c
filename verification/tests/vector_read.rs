// The behaviour of vectored reads: buffers are served left to right, the
// call stops at the first buffer it cannot fill, zero-length buffers are
// skipped, and an all-empty set of buffers still probes the source once.

use async_io_stream::channel::{Action, ScriptChannel};
use async_io_stream::err::ErrKind;
use async_io_stream::outcome::VecStatus;
use async_io_stream::wsio::WsIo;

#[derive(Debug, PartialEq, Eq, Clone, Copy)]
enum VecOutput {
    Read(usize),
    Pending,
    Error(ErrKind),
}

fn vec_read_tester(actions: Vec<Action>, read_out: VecOutput, expect: Vec<Vec<u8>>, polled: usize) {
    let mut wrapped = WsIo::new(ScriptChannel::source(actions));

    let lens: Vec<usize> = expect.iter().map(|b| b.len()).collect();
    let (outs, status) = wrapped.read_vectored(&lens);

    match status {
        VecStatus::Read(n) => assert!(matches!(read_out, VecOutput::Read(m) if m == n)),
        VecStatus::Fail(e) => assert!(matches!(read_out, VecOutput::Error(k) if k == e)),
        VecStatus::NotReady => assert_eq!(read_out, VecOutput::Pending),
    }

    for (i, out) in expect.iter().enumerate() {
        let mut buf = vec![0u8; out.len()];
        buf[..outs[i].len()].copy_from_slice(&outs[i]);
        assert_eq!(&buf, out);
    }

    assert_eq!(wrapped.inner().source.polled, polled);
}

// Send in an empty buffer. Polls the underlying source once, to be consistent
// with the non-vectored empty-buffer behaviour.
#[test]
fn empty_buffer_vectored() {
    let actions = vec![Action::Data(vec![1, 1]), Action::Data(vec![2, 2])];
    let expect = vec![vec![]];

    vec_read_tester(actions, VecOutput::Read(0), expect, 1);
}

// Send in buffers with the same size as the messages.
#[test]
fn exact_vectored() {
    let actions = vec![Action::Data(vec![1, 1]), Action::Data(vec![2, 2])];
    let expect = vec![vec![1, 1], vec![2, 2]];

    vec_read_tester(actions, VecOutput::Read(4), expect, 2);
}

// It polls twice for the first buffer, which is too big, and then knows the
// stream has ended, so the second buffer triggers no further poll.
#[test]
fn dont_poll_after_stream_end_vectored() {
    let actions = vec![Action::Data(vec![1])];
    let expect = vec![vec![1, 0], vec![0]];

    vec_read_tester(actions, VecOutput::Read(1), expect, 2);
}

// Poll beyond the end of the stream.
#[test]
fn exact_beyond_end_vectored() {
    let actions = vec![Action::Data(vec![1, 1]), Action::Data(vec![2, 2])];
    let expect = vec![vec![1, 1], vec![2, 2], vec![0, 0]];

    vec_read_tester(actions, VecOutput::Read(4), expect, 3);
}

// Poll with buffers smaller than one message: all of them are filled in one
// call.
#[test]
fn smaller_vectored() {
    let actions = vec![Action::Data(vec![1, 1]), Action::Data(vec![2, 2])];
    let expect = vec![vec![1], vec![1], vec![2], vec![2]];

    vec_read_tester(actions, VecOutput::Read(4), expect, 2);
}

// Poll with bigger buffers: the first buffer is filled entirely; the second
// one is bigger than the rest, so the source is polled a third time.
#[test]
fn bigger_vectored() {
    let actions = vec![Action::Data(vec![1, 1]), Action::Data(vec![2, 2])];
    let expect = vec![vec![1, 1, 2], vec![2, 0, 0]];

    vec_read_tester(actions, VecOutput::Read(4), expect, 3);
}

// Pass a buffer that fits 4 messages at once.
#[test]
fn very_big_vectored() {
    let actions = vec![
        Action::Data(vec![1]),
        Action::Data(vec![2, 2]),
        Action::Data(vec![3]),
        Action::Data(vec![4]),
    ];
    let expect = vec![vec![1, 2, 2, 3, 4], vec![0, 0, 0, 0]];

    vec_read_tester(actions, VecOutput::Read(5), expect, 5);
}

// When the source is pending, the call just returns what it already read.
#[test]
fn bigger_pending_vectored() {
    let actions = vec![
        Action::Data(vec![1, 1]),
        Action::Pending,
        Action::Data(vec![2, 2]),
    ];
    let expect = vec![vec![1, 1, 0], vec![0, 0, 0]];

    vec_read_tester(actions, VecOutput::Read(2), expect, 2);
}

// An error arriving after data was read is buffered for the next call.
#[test]
fn bigger_error_vectored() {
    let actions = vec![
        Action::Data(vec![1, 1]),
        Action::Fail(ErrKind::NotConnected),
        Action::Data(vec![2, 2]),
    ];
    let expect = vec![vec![1, 1, 0], vec![0, 0, 0], vec![0, 0, 0]];

    vec_read_tester(actions, VecOutput::Read(2), expect, 2);
}

// An error with no data yet is returned at once.
#[test]
fn error_vectored() {
    let actions = vec![
        Action::Fail(ErrKind::NotConnected),
        Action::Data(vec![1, 1]),
        Action::Data(vec![2, 2]),
    ];
    let expect = vec![vec![0, 0, 0], vec![0, 0, 0], vec![0, 0, 0]];

    vec_read_tester(actions, VecOutput::Error(ErrKind::NotConnected), expect, 1);
}

// A pending with no data yet is returned at once.
#[test]
fn pending_vectored() {
    let actions = vec![
        Action::Pending,
        Action::Data(vec![1, 1]),
        Action::Data(vec![2, 2]),
    ];
    let expect = vec![vec![0, 0, 0], vec![0, 0, 0], vec![0, 0, 0]];

    vec_read_tester(actions, VecOutput::Pending, expect, 1);
}
