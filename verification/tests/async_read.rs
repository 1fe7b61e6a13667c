// The behaviour of single-buffer reads:
//
// - an empty buffer polls once and delivers nothing
// - a buffer of exactly one message polls the source once per message
// - a buffer smaller than the message returns the rest on subsequent calls
// - a buffer bigger than the message keeps pulling, and swallows a pending
//   or buffers an error that arrives after data was already read
// - once the stream has ended, the source is never polled again

use async_io_stream::channel::{Action, ScriptChannel};
use async_io_stream::err::ErrKind;
use async_io_stream::outcome::ReadResult;
use async_io_stream::wsio::WsIo;

#[derive(Debug, PartialEq, Eq, Clone, Copy)]
enum Output {
    Read(usize),
    Pending,
    Error(ErrKind),
}

fn read_tester(actions: Vec<Action>, read_out: Vec<Output>, expect: Vec<Vec<u8>>, polled: usize) {
    let mut wrapped = WsIo::new(ScriptChannel::source(actions));

    for (i, out) in expect.iter().enumerate() {
        let mut buf = vec![0u8; out.len()];

        match wrapped.read(buf.len()) {
            ReadResult::Bytes(data) => {
                assert!(matches!(read_out[i], Output::Read(n) if n == data.len()));
                buf[..data.len()].copy_from_slice(&data);
            }
            ReadResult::Fail(e) => {
                assert!(matches!(read_out[i], Output::Error(err) if err == e));
            }
            ReadResult::NotReady => assert_eq!(read_out[i], Output::Pending),
        }

        assert_eq!(&buf, out);
    }

    assert_eq!(wrapped.inner().source.polled, polled);
}

// Send in an empty buffer.
#[test]
fn empty_buffer() {
    let actions = vec![Action::Data(vec![1, 1]), Action::Data(vec![2, 2])];
    let expect = vec![vec![]];
    let read_out = vec![Output::Read(0)];

    read_tester(actions, read_out, expect, 1);
}

// Send in a buffer with the same size as the message.
#[test]
fn exact() {
    let actions = vec![Action::Data(vec![1, 1]), Action::Data(vec![2, 2])];
    let expect = vec![vec![1, 1], vec![2, 2]];
    let read_out = vec![Output::Read(2), Output::Read(2)];

    read_tester(actions, read_out, expect, 2);
}

// It should poll twice for the first buffer, which is too big, but when we
// read again it must not poll the underlying source again, since it already
// knows that it has ended.
#[test]
fn dont_poll_after_stream_end() {
    let actions = vec![Action::Data(vec![1])];
    let expect = vec![vec![1, 0], vec![0]];
    let read_out = vec![Output::Read(1), Output::Read(0)];

    read_tester(actions, read_out, expect, 2);
}

// Poll beyond the end of the stream: the wrapper just keeps returning zero
// bytes read.
#[test]
fn exact_beyond_end() {
    let actions = vec![Action::Data(vec![1, 1]), Action::Data(vec![2, 2])];
    let expect = vec![vec![1, 1], vec![2, 2], vec![]];
    let read_out = vec![Output::Read(2), Output::Read(2), Output::Read(0)];

    read_tester(actions, read_out, expect, 3);
}

// Poll with a small buffer.
#[test]
fn smaller() {
    let actions = vec![Action::Data(vec![1, 1]), Action::Data(vec![2, 2])];
    let expect = vec![vec![1], vec![1], vec![2], vec![2]];
    let read_out = vec![
        Output::Read(1),
        Output::Read(1),
        Output::Read(1),
        Output::Read(1),
    ];

    read_tester(actions, read_out, expect, 2);
}

// Poll with a buffer that's bigger than the message; it should be entirely
// filled up. Since the second buffer is bigger, we still try to get more data
// before returning, so the source is polled 3 times.
#[test]
fn bigger() {
    let actions = vec![Action::Data(vec![1, 1]), Action::Data(vec![2, 2])];
    let expect = vec![vec![1, 1, 2], vec![2, 0, 0]];
    let read_out = vec![Output::Read(3), Output::Read(1)];

    read_tester(actions, read_out, expect, 3);
}

// Pass a buffer that fits 4 messages at once.
#[test]
fn very_big() {
    let actions = vec![
        Action::Data(vec![1]),
        Action::Data(vec![2, 2]),
        Action::Data(vec![3]),
        Action::Data(vec![4]),
    ];
    let expect = vec![vec![1, 2, 2, 3, 4], vec![0, 0, 0, 0]];
    let read_out = vec![Output::Read(5), Output::Read(0)];

    read_tester(actions, read_out, expect, 5);
}

// Pending should be swallowed: it is consumed for the first buffer, which was
// not full yet, and polling resumes on the next read call, so from outside
// the pending is never observed. The fourth poll is because the last buffer
// is not full, so the wrapper tries to get more.
#[test]
fn bigger_pending() {
    let actions = vec![
        Action::Data(vec![1, 1]),
        Action::Pending,
        Action::Data(vec![2, 2]),
    ];
    let expect = vec![vec![1, 1, 0], vec![2, 2, 0]];
    let read_out = vec![Output::Read(2), Output::Read(2)];

    read_tester(actions, read_out, expect, 4);
}

// An error arriving when the first buffer already holds data is buffered and
// returned on the subsequent call.
#[test]
fn bigger_error() {
    let actions = vec![
        Action::Data(vec![1, 1]),
        Action::Fail(ErrKind::NotConnected),
        Action::Data(vec![2, 2]),
    ];
    let expect = vec![vec![1, 1, 0], vec![0, 0, 0], vec![2, 2, 0]];
    let read_out = vec![
        Output::Read(2),
        Output::Error(ErrKind::NotConnected),
        Output::Read(2),
    ];

    read_tester(actions, read_out, expect, 4);
}

// An error with no data yet is returned at once.
#[test]
fn error() {
    let actions = vec![
        Action::Fail(ErrKind::NotConnected),
        Action::Data(vec![1, 1]),
    ];
    let expect = vec![vec![0, 0, 0], vec![1, 1]];
    let read_out = vec![Output::Error(ErrKind::NotConnected), Output::Read(2)];

    read_tester(actions, read_out, expect, 2);
}

// A pending with no data yet is returned at once.
#[test]
fn pending() {
    let actions = vec![Action::Pending, Action::Data(vec![2, 2])];
    let expect = vec![vec![0, 0, 0], vec![2, 2]];
    let read_out = vec![Output::Pending, Output::Read(2)];

    read_tester(actions, read_out, expect, 2);
}
