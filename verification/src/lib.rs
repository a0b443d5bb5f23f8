//! Driver core for a spinning-mirror distance scanner that speaks a binary
//! request/response protocol over a serial link. This crate holds the verified
//! parts: the protocol codec, the streaming-sample decoder, the scan state
//! machine and the sample buffer. The transport itself (a byte channel) and the
//! background thread that pumps it live outside the crate and hand plain bytes
//! in and out.

pub mod cmd;
pub mod codec;
pub mod sample;
pub mod scan;
pub mod types;
