//! An alternating-turn framed transfer protocol.
//!
//! Two peers share one byte stream. They take turns producing a batch of
//! numbers, one batch per iteration, and confirm each batch with a single
//! byte. This crate holds the protocol's decisions: the frame codec, the
//! payload layouts, the turn rule and the session state machine. It performs
//! no input or output itself; a driver reads and writes the stream and tells
//! the session what happened.
//!
//! - [`endian`]: little-endian integers as bytes.
//! - [`frame`]: the wire frame, encoded and decoded on whole buffers.
//! - [`reader`]: one frame read from a stream, a piece at a time.
//! - [`payload`]: the configuration and the batches inside data frames.
//! - [`turn`]: which peer produces in which iteration.
//! - [`session`]: the state machine of one side of one connection.
//! - [`exchange`]: payloads into frames, frames into events.
//! - [`generator`], [`sorting`]: the collaborators that make and sort batches.
//! - [`laws`]: what holds of every session.

pub mod endian;
pub mod exchange;
pub mod frame;
pub mod generator;
pub mod laws;
pub mod payload;
pub mod reader;
pub mod session;
pub mod sorting;
pub mod turn;
