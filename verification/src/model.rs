use vstd::prelude::*;
use crate::channel::Action;
use crate::err::ErrKind;
use crate::outcome::ReadOutcome;
use crate::pending::PendingRead;

verus! {

/// The read-side state reduced to pure data: what a reader can still be owed,
/// with a buffered chunk abstracted to the bytes that remain of it.
pub ghost enum PendingModel {
    /// Nothing stored.
    Empty,
    /// These bytes are buffered and owed, oldest first.
    Chunk(Seq<u8>),
    /// This error is owed to the next read, exactly once.
    DeferredError(ErrKind),
    /// Exhaustion was observed; the source is never polled again.
    Ended,
}

/// The abstraction of the stored read state.
pub open spec fn pending_model(p: PendingRead<ErrKind>) -> PendingModel {
    match p {
        PendingRead::Empty => PendingModel::Empty,
        PendingRead::Chunk { bytes, cursor } => PendingModel::Chunk(bytes@.skip(cursor as int)),
        PendingRead::DeferredError(e) => PendingModel::DeferredError(e),
        PendingRead::Ended => PendingModel::Ended,
    }
}

/// Everything one read call decides, as pure data: the bytes delivered, the
/// outcome, the state left behind, the script position reached, and how often
/// the source was polled.
pub ghost struct ReadModel {
    /// The bytes handed to the caller, in order.
    pub out: Seq<u8>,
    /// The call's outcome.
    pub status: ReadOutcome<ErrKind>,
    /// The read state after the call.
    pub pending: PendingModel,
    /// The script position after the call.
    pub next: int,
    /// How many polls the call made.
    pub polls: int,
}

/// The pulling phase of a read call: nothing is buffered, `out` holds what
/// the call has produced so far, and the source is polled — once per scripted
/// answer — until the buffer is full or the source has nothing to give at
/// once.
pub open spec fn read_pull(out: Seq<u8>, acts: Seq<Action>, next: int, cap: int) -> ReadModel
    recommends
        out.len() < cap || (out.len() == 0 && cap == 0),
        0 <= next,
    decreases acts.len() - next,
{
    if next >= acts.len() {
        // the poll observes exhaustion: latch it, report what the call holds
        ReadModel {
            out,
            status: ReadOutcome::Delivered,
            pending: PendingModel::Ended,
            next,
            polls: 1,
        }
    } else {
        match acts[next] {
            // nothing yet: suspend if nothing was produced, else report it
            Action::Pending => ReadModel {
                out,
                status: if out.len() == 0 {
                    ReadOutcome::NotReady
                } else {
                    ReadOutcome::Delivered
                },
                pending: PendingModel::Empty,
                next: next + 1,
                polls: 1,
            },
            // a failure: surfaced now if nothing was produced, else deferred
            Action::Fail(k) => if out.len() == 0 {
                ReadModel {
                    out,
                    status: ReadOutcome::Fail(k),
                    pending: PendingModel::Empty,
                    next: next + 1,
                    polls: 1,
                }
            } else {
                ReadModel {
                    out,
                    status: ReadOutcome::Delivered,
                    pending: PendingModel::DeferredError(k),
                    next: next + 1,
                    polls: 1,
                }
            },
            // a message: as much as fits is delivered, the rest is buffered;
            // a full buffer ends the call, otherwise pulling goes on
            Action::Data(m) => {
                let r = vstd::math::min(cap - out.len(), m@.len() as int);
                let out2 = out + m@.take(r);
                if out2.len() == cap {
                    ReadModel {
                        out: out2,
                        status: ReadOutcome::Delivered,
                        pending: if r < m@.len() {
                            PendingModel::Chunk(m@.skip(r))
                        } else {
                            PendingModel::Empty
                        },
                        next: next + 1,
                        polls: 1,
                    }
                } else {
                    let rest = read_pull(out2, acts, next + 1, cap);
                    ReadModel { polls: rest.polls + 1, ..rest }
                }
            },
        }
    }
}

/// One whole read call of capacity `cap`, as a pure function of the read
/// state, the script and its position: first the stored state decides — the
/// latch, a deferred error, buffered bytes — then the source is pulled while
/// there is room.
pub open spec fn read_model(pending: PendingModel, acts: Seq<Action>, next: int, cap: int) -> ReadModel
    recommends
        pending matches PendingModel::Chunk(rem) ==> rem.len() > 0,
        0 <= next,
{
    match pending {
        PendingModel::Ended => ReadModel {
            out: Seq::<u8>::empty(),
            status: ReadOutcome::Delivered,
            pending: PendingModel::Ended,
            next,
            polls: 0,
        },
        PendingModel::DeferredError(k) => ReadModel {
            out: Seq::<u8>::empty(),
            status: ReadOutcome::Fail(k),
            pending: PendingModel::Empty,
            next,
            polls: 0,
        },
        PendingModel::Empty => read_pull(Seq::<u8>::empty(), acts, next, cap),
        PendingModel::Chunk(rem) => {
            let k = vstd::math::min(cap, rem.len() as int);
            if k == cap {
                ReadModel {
                    out: rem.take(k),
                    status: ReadOutcome::Delivered,
                    pending: if k < rem.len() {
                        PendingModel::Chunk(rem.skip(k))
                    } else {
                        PendingModel::Empty
                    },
                    next,
                    polls: 0,
                }
            } else {
                read_pull(rem, acts, next, cap)
            }
        },
    }
}

/// The per-buffer views of a list of byte buffers.
pub open spec fn views_of(bufs: Seq<Vec<u8>>) -> Seq<Seq<u8>> {
    Seq::new(bufs.len(), |i: int| bufs[i]@)
}

/// So many untouched destination buffers.
pub open spec fn empty_outs(n: int) -> Seq<Seq<u8>> {
    Seq::new(n as nat, |i: int| Seq::<u8>::empty())
}

/// Everything one vectored read call decides: the bytes written into each
/// remaining destination buffer, and the rest as for a single read.
pub ghost struct VecModel {
    /// One entry per destination buffer, in order.
    pub outs: Seq<Seq<u8>>,
    /// The call's outcome; delivered means "report the total byte count".
    pub status: ReadOutcome<ErrKind>,
    /// The read state after the call.
    pub pending: PendingModel,
    /// The script position after the call.
    pub next: int,
    /// How many polls the call made.
    pub polls: int,
}

/// One vectored read call over the destination buffers from `idx` on, with
/// `have` bytes already written into earlier buffers: buffers are served left
/// to right, each by one single read; the call stops at the first buffer it
/// cannot fill; zero-length buffers are skipped; when no buffer had room and
/// nothing was produced, one probe poll of capacity zero is made.
pub open spec fn vec_read_model(
    pending: PendingModel,
    acts: Seq<Action>,
    next: int,
    lens: Seq<usize>,
    idx: int,
    have: int,
) -> VecModel
    decreases lens.len() - idx,
{
    if idx < 0 || idx >= lens.len() {
        if have == 0 {
            let s = read_model(pending, acts, next, 0);
            VecModel {
                outs: Seq::<Seq<u8>>::empty(),
                status: s.status,
                pending: s.pending,
                next: s.next,
                polls: s.polls,
            }
        } else {
            VecModel {
                outs: Seq::<Seq<u8>>::empty(),
                status: ReadOutcome::Delivered,
                pending,
                next,
                polls: 0,
            }
        }
    } else if lens[idx] == 0 {
        let rest = vec_read_model(pending, acts, next, lens, idx + 1, have);
        VecModel { outs: seq![Seq::<u8>::empty()] + rest.outs, ..rest }
    } else {
        let s = read_model(pending, acts, next, lens[idx] as int);
        match s.status {
            // nothing immediately available: suspend only if no buffer holds
            // a byte yet, else report the running total
            ReadOutcome::NotReady => VecModel {
                outs: empty_outs(lens.len() - idx),
                status: if have == 0 {
                    ReadOutcome::NotReady
                } else {
                    ReadOutcome::Delivered
                },
                pending: s.pending,
                next: s.next,
                polls: s.polls,
            },
            // a failure: surfaced now if nothing was written, else deferred
            ReadOutcome::Fail(k) => if have == 0 {
                VecModel {
                    outs: empty_outs(lens.len() - idx),
                    status: ReadOutcome::Fail(k),
                    pending: s.pending,
                    next: s.next,
                    polls: s.polls,
                }
            } else {
                VecModel {
                    outs: empty_outs(lens.len() - idx),
                    status: ReadOutcome::Delivered,
                    pending: PendingModel::DeferredError(k),
                    next: s.next,
                    polls: s.polls,
                }
            },
            // a filled buffer lets the call advance; a short one ends it
            ReadOutcome::Delivered => if s.out.len() == lens[idx] {
                let rest = vec_read_model(
                    s.pending,
                    acts,
                    s.next,
                    lens,
                    idx + 1,
                    have + s.out.len(),
                );
                VecModel {
                    outs: seq![s.out] + rest.outs,
                    status: rest.status,
                    pending: rest.pending,
                    next: rest.next,
                    polls: s.polls + rest.polls,
                }
            } else {
                VecModel {
                    outs: seq![s.out] + empty_outs(lens.len() - idx - 1),
                    status: ReadOutcome::Delivered,
                    pending: s.pending,
                    next: s.next,
                    polls: s.polls,
                }
            },
        }
    }
}

/// Skipping a run of zero-length buffers changes nothing but the empty
/// entries recorded for them.
pub proof fn lemma_vec_model_skip_zeros(
    pending: PendingModel,
    acts: Seq<Action>,
    next: int,
    lens: Seq<usize>,
    idx: int,
    j: int,
    have: int,
)
    requires
        0 <= idx <= j <= lens.len(),
        forall|t: int| idx <= t < j ==> lens[t] == 0,
    ensures
        ({
            let a = vec_read_model(pending, acts, next, lens, idx, have);
            let b = vec_read_model(pending, acts, next, lens, j, have);
            &&& a.outs == empty_outs(j - idx) + b.outs
            &&& a.status == b.status
            &&& a.pending == b.pending
            &&& a.next == b.next
            &&& a.polls == b.polls
        }),
    decreases j - idx,
{
    let a = vec_read_model(pending, acts, next, lens, idx, have);
    let b = vec_read_model(pending, acts, next, lens, j, have);
    if idx == j {
        assert(a.outs =~= empty_outs(0) + b.outs);
    } else {
        lemma_vec_model_skip_zeros(pending, acts, next, lens, idx + 1, j, have);
        let m = vec_read_model(pending, acts, next, lens, idx + 1, have);
        assert(a.outs =~= empty_outs(j - idx) + b.outs) by {
            assert(a.outs == seq![Seq::<u8>::empty()] + m.outs);
            assert(m.outs == empty_outs(j - idx - 1) + b.outs);
        }
    }
}

} // verus!
