//! Core of a rate-limited, concurrency-bounded client for streamed chat
//! completions.
//!
//! The crate is free of I/O: every operation that would block (a sleep, a
//! network exchange, waiting for a free slot) is expressed as a decision on
//! plain values, and the caller performs the blocking part.
//!
//! - [`limiter`] spaces the requests of one client, and [`gate`] bounds the
//!   number of requests in flight.
//! - [`message`] and [`conversation`] hold what was said; [`session`] drives
//!   one conversation, [`command`] knows the words that steer it, and
//!   [`batch`] keeps the outcomes of many independent requests.
//! - [`transport`] says what to send and what an answer means.
//! - [`frames`] cuts a streamed answer into frames, [`decoder`] reads one
//!   frame, and [`reader`] puts the two together.
//! - [`json`] is the border to `serde_json`, and [`document`] reads fields
//!   across it. [`bytes`] holds small helpers on byte strings.

pub mod batch;
pub mod bytes;
pub mod command;
pub mod conversation;
pub mod decoder;
pub mod document;
pub mod frames;
pub mod gate;
pub mod json;
pub mod limiter;
pub mod message;
pub mod reader;
pub mod session;
pub mod transport;
