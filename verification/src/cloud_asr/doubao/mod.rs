//! Doubao (Volcano Engine) streaming speech recognition.
//!
//! - `protocol`: frame header, big-endian fields and gzip
//! - `payload`: request frames
//! - `response`: server frames
//! - `handshake`: the WebSocket handshake with its credentials
//! - `session`: errors and the handling of replies, common to the sessions
//! - `client`: the client and the test of its credentials
//! - `batch`: the transcription of a complete recording
//! - `stream`: the record-while-uploading session

pub mod batch;
pub mod client;
pub mod handshake;
pub mod payload;
pub mod protocol;
pub mod response;
pub mod session;
pub mod stream;
