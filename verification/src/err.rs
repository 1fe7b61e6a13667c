use vstd::prelude::*;

verus! {

/// The classes of transport failure that callers need to tell apart.
///
/// The adapter never invents errors of its own; it only carries what the
/// underlying channel reported, possibly one call later than it was observed.
#[derive(Clone, Copy, Debug, PartialEq, Eq, Structural)]
pub enum ErrKind {
    /// The connection is already closed; the adapter can safely be dropped.
    NotConnected,
    /// An outgoing message exceeded the transport's configured maximum size.
    CapacityExceeded,
    /// Any other transport failure; considered unrecoverable.
    Fatal,
}

} // verus!
