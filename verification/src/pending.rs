use vstd::prelude::*;

verus! {

/// The read-side state that survives from one read call to the next.
///
/// It exists so that nothing observed from the channel is ever lost: a message
/// larger than the caller's buffer is kept with a cursor, an error that
/// arrived after the current call had already produced bytes is kept for the
/// next call, and exhaustion is latched so the channel is never polled again.
#[derive(Debug)]
pub enum PendingRead<E> {
    /// No residual data: the next read must consult the channel.
    Empty,
    /// A message pulled from the channel and only partially handed out;
    /// `cursor` counts the bytes already copied into caller buffers.
    Chunk { bytes: Vec<u8>, cursor: usize },
    /// An error observed while the caller's buffer already held unreturned
    /// bytes; owed verbatim to the next read call, exactly once.
    DeferredError(E),
    /// The channel reported exhaustion; it is never consulted again.
    Ended,
}

impl<E> PendingRead<E> {
    /// The bytes that are buffered and still owed to the caller, oldest first.
    pub open spec fn buffered(&self) -> Seq<u8> {
        match self {
            PendingRead::Chunk { bytes, cursor } => bytes@.skip(*cursor as int),
            _ => Seq::<u8>::empty(),
        }
    }

    /// A retained chunk always has bytes left to hand out: a chunk whose last
    /// byte has been delivered collapses to `Empty` at once, so a read never
    /// observes a hollow chunk.
    pub open spec fn wf(&self) -> bool {
        self matches PendingRead::Chunk { bytes, cursor } ==> cursor < bytes@.len()
    }
}

} // verus!
