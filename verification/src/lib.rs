//! A library for listening on the Twitter Streaming API.
//!
//! The transport (HTTP, TLS, gzip, timers) is driven by the caller; this crate holds the
//! logic that decides what happens to the bytes and messages: building the signed request for
//! the `filter`/`sample` endpoints, splitting the response body into CRLF-delimited lines,
//! discarding keep-alive lines, and interpreting the JSON messages that the stream sends.

pub mod buffer;
pub mod builder;
pub mod crlf_lines;
pub mod datetime;
pub mod json;
pub mod lines;
pub mod listen;
pub mod message;
pub mod oauth;
pub mod service;
pub mod stream_builder;
pub mod text;
pub mod timeout;
