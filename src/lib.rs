//! Answers binary test-protocol requests about the Tox DHT wire formats.
//!
//! A request names a test case and carries a payload; the reply is one of
//! three envelopes (failure, success, skipped). The cases decode and encode
//! node descriptors, in their wire form and in a "deconstructed" form, and
//! run the key, nonce and distance operations of the Tox libraries.

pub mod crypto;
pub mod deconstructed;
pub mod dispatch;
pub mod envelope;
pub mod handlers;
pub mod node;
pub mod wire;
