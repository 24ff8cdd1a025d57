//! Streaming support for a terminal chat interface.
//!
//! Model output arrives as small text deltas. This crate holds the state that
//! sits between that producer and the renderer: a per-stream aggregate that
//! queues finished lines for paced release ([`streaming::StreamState`]) and a
//! two-scope latch that decides when a stream is introduced by a one-line
//! header ([`streaming::HeaderEmitter`]).
//!
//! Every function is verified with Verus. The only unverified surface is the
//! handful of `ratatui` calls declared in [`styled_text`].

pub mod styled_text;
pub mod markdown_stream;
pub mod streaming;
