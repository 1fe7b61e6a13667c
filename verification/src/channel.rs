use vstd::prelude::*;
use crate::err::ErrKind;
use crate::event::{FlushEvent, GateEvent, NextEvent, SendEvent, WakeMode};

verus! {

/// One scripted answer of the message source.
#[derive(Debug, PartialEq, Eq)]
pub enum Action {
    /// Answer "no message yet".
    Pending,
    /// Produce this message.
    Data(Vec<u8>),
    /// Fail with this error.
    Fail(ErrKind),
}

/// One scripted answer to a send-readiness poll of the sink.
#[derive(Clone, Copy, Debug, PartialEq, Eq, Structural)]
pub enum ReadyAction {
    /// Answer "not ready to accept yet".
    Pending,
    /// Accept a submission now.
    Ready,
    /// Fail with this error.
    Fail(ErrKind),
}

/// One scripted answer to a submission.
#[derive(Clone, Copy, Debug, PartialEq, Eq, Structural)]
pub enum SendAction {
    /// Accept the message.
    Accept,
    /// Reject it with this error.
    Fail(ErrKind),
}

/// One scripted answer of the sink's flush or close operation.
#[derive(Clone, Copy, Debug, PartialEq, Eq, Structural)]
pub enum FlushAction {
    /// Answer "still in progress".
    Pending,
    /// Complete the operation.
    Done,
    /// Fail with this error.
    Fail(ErrKind),
}

/// The message bytes that one scripted answer hands out: a `Data` action's
/// payload, nothing otherwise.
pub open spec fn payload(a: Action) -> Seq<u8> {
    match a {
        Action::Data(v) => v@,
        _ => Seq::<u8>::empty(),
    }
}

/// The concatenation of the payloads of the first `n` actions: everything the
/// source has produced once `n` of its answers have been consumed.
pub open spec fn produced_upto(acts: Seq<Action>, n: int) -> Seq<u8>
    decreases n,
{
    if n <= 0 {
        Seq::<u8>::empty()
    } else {
        produced_upto(acts, n - 1) + payload(acts[n - 1])
    }
}

/// The read side of a scripted channel: a message source whose answers are
/// fixed up front, with a counter of how often it was polled.
pub struct ScriptSource {
    /// The scripted answers, consumed front to back; once they are spent the
    /// source answers "ended" forever.
    pub actions: Vec<Action>,
    /// How many answers have been consumed.
    pub next: usize,
    /// How often the source was polled, over-the-end polls included.
    pub polled: usize,
}

/// The write side of a scripted channel: readiness, submission, flush and
/// close answers fixed up front, each consumed by its own counter, plus the
/// messages that were accepted.
pub struct ScriptSink {
    /// Answers to send-readiness polls, one per poll.
    pub ready_actions: Vec<ReadyAction>,
    /// How often send-readiness was polled.
    pub ready_polled: usize,
    /// Answers to submissions, one per submission.
    pub send_actions: Vec<SendAction>,
    /// How many submissions were made.
    pub sends: usize,
    /// Answers of the flush operation, one per poll.
    pub flush_actions: Vec<FlushAction>,
    /// How often flush was polled.
    pub flushes: usize,
    /// Answers of the close operation, one per poll.
    pub close_actions: Vec<FlushAction>,
    /// How often close was polled.
    pub closes: usize,
    /// Every message accepted so far, in submission order.
    pub items: Vec<Vec<u8>>,
}

/// An in-memory message channel whose behaviour is given up front as a
/// script. It answers the same five questions a live transport answers —
/// next message, ready to send, submit, flush, close — so it can drive the
/// adapter deterministically, one scripted answer per poll.
pub struct ScriptChannel {
    /// The message source.
    pub source: ScriptSource,
    /// The message sink.
    pub sink: ScriptSink,
}

impl ScriptChannel {
    /// The source's consumed answers never outrun its script.
    pub open spec fn wf(&self) -> bool {
        self.source.next <= self.source.actions@.len()
    }

    /// Everything the source has produced so far, as one byte sequence in
    /// production order.
    pub open spec fn produced(&self) -> Seq<u8> {
        produced_upto(self.source.actions@, self.source.next as int)
    }

    /// The poll counter cannot overflow during one read call, however much of
    /// the script that call consumes.
    pub open spec fn poll_headroom(&self) -> bool {
        self.source.polled + (self.source.actions@.len() - self.source.next) + 1 <= usize::MAX
    }

    /// A channel that only produces: the write-side scripts are empty.
    pub fn source(actions: Vec<Action>) -> (c: Self)
        ensures
            c.wf(),
            c.source.actions == actions,
            c.source.next == 0,
            c.source.polled == 0,
            c.sink.ready_polled == 0 && c.sink.sends == 0 && c.sink.flushes == 0 && c.sink.closes
                == 0,
            c.sink.items@.len() == 0,
            c.produced() == Seq::<u8>::empty(),
    {
        ScriptChannel {
            source: ScriptSource { actions, next: 0, polled: 0 },
            sink: ScriptSink {
                ready_actions: Vec::new(),
                ready_polled: 0,
                send_actions: Vec::new(),
                sends: 0,
                flush_actions: Vec::new(),
                flushes: 0,
                close_actions: Vec::new(),
                closes: 0,
                items: Vec::new(),
            },
        }
    }

    /// A channel that only accepts: the read-side and close scripts are empty.
    pub fn sink(
        ready_actions: Vec<ReadyAction>,
        send_actions: Vec<SendAction>,
        flush_actions: Vec<FlushAction>,
    ) -> (c: Self)
        ensures
            c.wf(),
            c.sink.ready_actions == ready_actions,
            c.sink.send_actions == send_actions,
            c.sink.flush_actions == flush_actions,
            c.sink.ready_polled == 0 && c.sink.sends == 0 && c.sink.flushes == 0 && c.sink.closes
                == 0,
            c.sink.items@.len() == 0,
            c.source.actions@.len() == 0 && c.source.next == 0 && c.source.polled == 0,
            c.produced() == Seq::<u8>::empty(),
    {
        ScriptChannel {
            source: ScriptSource { actions: Vec::new(), next: 0, polled: 0 },
            sink: ScriptSink {
                ready_actions,
                ready_polled: 0,
                send_actions,
                sends: 0,
                flush_actions,
                flushes: 0,
                close_actions: Vec::new(),
                closes: 0,
                items: Vec::new(),
            },
        }
    }

    /// A channel with every script given explicitly.
    pub fn new(
        actions: Vec<Action>,
        ready_actions: Vec<ReadyAction>,
        send_actions: Vec<SendAction>,
        flush_actions: Vec<FlushAction>,
        close_actions: Vec<FlushAction>,
    ) -> (c: Self)
        ensures
            c.wf(),
            c.source.actions == actions,
            c.sink.ready_actions == ready_actions,
            c.sink.send_actions == send_actions,
            c.sink.flush_actions == flush_actions,
            c.sink.close_actions == close_actions,
            c.source.next == 0 && c.source.polled == 0,
            c.sink.ready_polled == 0 && c.sink.sends == 0 && c.sink.flushes == 0 && c.sink.closes
                == 0,
            c.sink.items@.len() == 0,
            c.produced() == Seq::<u8>::empty(),
    {
        ScriptChannel {
            source: ScriptSource { actions, next: 0, polled: 0 },
            sink: ScriptSink {
                ready_actions,
                ready_polled: 0,
                send_actions,
                sends: 0,
                flush_actions,
                flushes: 0,
                close_actions,
                closes: 0,
                items: Vec::new(),
            },
        }
    }

    /// Poll for the next message: consume the next scripted answer, or report
    /// exhaustion forever once the script is spent. The wake discipline is
    /// accepted for interface fidelity; a script never wakes anybody.
    pub fn poll_next(&mut self, _wake: WakeMode) -> (ev: NextEvent<ErrKind>)
        requires
            old(self).wf(),
            old(self).source.polled < usize::MAX,
        ensures
            final(self).wf(),
            final(self).source.actions == old(self).source.actions,
            final(self).source.polled == old(self).source.polled + 1,
            final(self).sink == old(self).sink,
            if old(self).source.next < old(self).source.actions@.len() {
                &&& final(self).source.next == old(self).source.next + 1
                &&& match old(self).source.actions@[old(self).source.next as int] {
                    Action::Pending => ev is NotReady,
                    Action::Data(v) => ev matches NextEvent::Message(m) && m@ == v@,
                    Action::Fail(k) => ev == NextEvent::<ErrKind>::Fail(k),
                }
                &&& final(self).produced() == old(self).produced() + payload(
                    old(self).source.actions@[old(self).source.next as int],
                )
            } else {
                &&& final(self).source.next == old(self).source.next
                &&& ev is Ended
                &&& final(self).produced() == old(self).produced()
            },
    {
        let i = self.source.next;
        if i < self.source.actions.len() {
            let ev = match &self.source.actions[i] {
                Action::Pending => NextEvent::NotReady,
                Action::Data(v) => NextEvent::Message(copy_bytes(v)),
                Action::Fail(k) => NextEvent::Fail(*k),
            };
            self.source.next = i + 1;
            self.source.polled = self.source.polled + 1;
            ev
        } else {
            self.source.polled = self.source.polled + 1;
            NextEvent::Ended
        }
    }

    /// Poll for send-readiness: consume its next scripted answer.
    pub fn poll_send_ready(&mut self, _wake: WakeMode) -> (ev: GateEvent<ErrKind>)
        requires
            old(self).sink.ready_polled < old(self).sink.ready_actions@.len(),
        ensures
            final(self).source == old(self).source,
            final(self).sink.ready_polled == old(self).sink.ready_polled + 1,
            final(self).sink == (ScriptSink {
                ready_polled: final(self).sink.ready_polled,
                ..old(self).sink
            }),
            match old(self).sink.ready_actions@[old(self).sink.ready_polled as int] {
                ReadyAction::Pending => ev is NotReady,
                ReadyAction::Ready => ev is Ready,
                ReadyAction::Fail(k) => ev == GateEvent::<ErrKind>::Fail(k),
            },
    {
        let i = self.sink.ready_polled;
        let n = self.sink.ready_actions.len();
        self.sink.ready_polled = i + 1;
        match self.sink.ready_actions[i] {
            ReadyAction::Pending => GateEvent::NotReady,
            ReadyAction::Ready => GateEvent::Ready,
            ReadyAction::Fail(k) => GateEvent::Fail(k),
        }
    }

    /// Submit one message: consume the next scripted answer; an accepted
    /// message is recorded in submission order.
    pub fn submit(&mut self, msg: Vec<u8>) -> (ev: SendEvent<ErrKind>)
        requires
            old(self).sink.sends < old(self).sink.send_actions@.len(),
        ensures
            final(self).source == old(self).source,
            final(self).sink.sends == old(self).sink.sends + 1,
            final(self).sink.ready_actions == old(self).sink.ready_actions,
            final(self).sink.ready_polled == old(self).sink.ready_polled,
            final(self).sink.send_actions == old(self).sink.send_actions,
            final(self).sink.flush_actions == old(self).sink.flush_actions,
            final(self).sink.flushes == old(self).sink.flushes,
            final(self).sink.close_actions == old(self).sink.close_actions,
            final(self).sink.closes == old(self).sink.closes,
            match old(self).sink.send_actions@[old(self).sink.sends as int] {
                SendAction::Accept => ev is Accepted && final(self).sink.items@ == old(
                    self,
                ).sink.items@.push(msg),
                SendAction::Fail(k) => ev == SendEvent::<ErrKind>::Fail(k) && final(self).sink.items
                    == old(self).sink.items,
            },
    {
        let i = self.sink.sends;
        let n = self.sink.send_actions.len();
        self.sink.sends = i + 1;
        match self.sink.send_actions[i] {
            SendAction::Accept => {
                self.sink.items.push(msg);
                SendEvent::Accepted
            },
            SendAction::Fail(k) => SendEvent::Fail(k),
        }
    }

    /// Poll the flush operation: consume its next scripted answer.
    pub fn poll_flush(&mut self, _wake: WakeMode) -> (ev: FlushEvent<ErrKind>)
        requires
            old(self).sink.flushes < old(self).sink.flush_actions@.len(),
        ensures
            final(self).source == old(self).source,
            final(self).sink.flushes == old(self).sink.flushes + 1,
            final(self).sink == (ScriptSink {
                flushes: final(self).sink.flushes,
                ..old(self).sink
            }),
            match old(self).sink.flush_actions@[old(self).sink.flushes as int] {
                FlushAction::Pending => ev is NotReady,
                FlushAction::Done => ev is Done,
                FlushAction::Fail(k) => ev == FlushEvent::<ErrKind>::Fail(k),
            },
    {
        let i = self.sink.flushes;
        let n = self.sink.flush_actions.len();
        self.sink.flushes = i + 1;
        match self.sink.flush_actions[i] {
            FlushAction::Pending => FlushEvent::NotReady,
            FlushAction::Done => FlushEvent::Done,
            FlushAction::Fail(k) => FlushEvent::Fail(k),
        }
    }

    /// Poll the close operation: consume its next scripted answer.
    pub fn poll_close(&mut self, _wake: WakeMode) -> (ev: FlushEvent<ErrKind>)
        requires
            old(self).sink.closes < old(self).sink.close_actions@.len(),
        ensures
            final(self).source == old(self).source,
            final(self).sink.closes == old(self).sink.closes + 1,
            final(self).sink == (ScriptSink {
                closes: final(self).sink.closes,
                ..old(self).sink
            }),
            match old(self).sink.close_actions@[old(self).sink.closes as int] {
                FlushAction::Pending => ev is NotReady,
                FlushAction::Done => ev is Done,
                FlushAction::Fail(k) => ev == FlushEvent::<ErrKind>::Fail(k),
            },
    {
        let i = self.sink.closes;
        let n = self.sink.close_actions.len();
        self.sink.closes = i + 1;
        match self.sink.close_actions[i] {
            FlushAction::Pending => FlushEvent::NotReady,
            FlushAction::Done => FlushEvent::Done,
            FlushAction::Fail(k) => FlushEvent::Fail(k),
        }
    }
}

/// Copy a byte buffer: the owner keeps its bytes, the caller gets equal ones.
pub(crate) fn copy_bytes(src: &Vec<u8>) -> (r: Vec<u8>)
    ensures
        r@ == src@,
{
    let mut r: Vec<u8> = Vec::new();
    let mut i: usize = 0;
    while i < src.len()
        invariant
            i <= src@.len(),
            r@ == src@.take(i as int),
        decreases src@.len() - i,
    {
        r.push(src[i]);
        i += 1;
    }
    proof {
        assert(src@.take(src@.len() as int) =~= src@);
    }
    r
}

} // verus!
