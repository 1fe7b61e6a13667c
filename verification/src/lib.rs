//! Adapts a message-oriented channel — a source of discrete byte chunks and a
//! sink that accepts discrete byte chunks — into a byte-stream interface with
//! non-blocking, poll-style reads and writes.
//!
//! The heart of the crate is [`adapter::StreamAdapter`]: the buffering state
//! machine that carries partially consumed chunks, deferred errors and the
//! end-of-stream latch across calls. It is driven one channel event at a time,
//! so any event loop can host it; [`wsio::WsIo`] assembles it with an
//! in-memory [`channel::ScriptChannel`] into a complete, fully verified
//! byte-stream endpoint.

pub mod adapter;
pub mod channel;
pub mod err;
pub mod event;
pub mod laws;
pub mod model;
pub mod outcome;
pub mod pending;
pub mod wsio;
