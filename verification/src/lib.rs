//! A double-buffered transport core for streaming encoded log frames from
//! non-blocking producers (including interrupt handlers) to a slow,
//! packet-oriented channel.
//!
//! The library is organised around a pair of fixed-capacity byte buffers and
//! the controller that alternates them between an `Active` role (accepting
//! producer writes) and a `Flushing` role (retired, awaiting transmission).
//! Producers never block and never allocate: when neither buffer can take an
//! incoming write, the bytes are deliberately discarded rather than stalling
//! the producer.
//!
//! - [`buffer`] holds the fixed-capacity byte buffer and its state tag.
//! - [`controller`] holds the write/swap/flush protocol over the two buffers.
//! - [`encoder`] holds the frame-boundary latch that serialises producers.
//! - [`drain`] holds the decisions of the task that pushes retired buffers
//!   out over the transport, and the packet-size chunking of their bytes.
//!
//! The surrounding application supplies what the core deliberately leaves
//! out: the exclusion primitive that guards the single process-wide instance,
//! the frame encoder that produces the bytes, and the transport that carries
//! them.

pub mod buffer;
pub mod controller;
pub mod drain;
pub mod encoder;
