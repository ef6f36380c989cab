//! The three reply envelopes and their byte layouts.
//!
//! Every reply starts with one tag byte: `0x00` for a failure, `0x01` for a
//! success, `0x02` for a skipped case.

use vstd::prelude::*;
use vstd::utf8::encode_utf8;

use crate::wire::{append_be_u64, append_bytes, be_u64_bytes};

verus! {

/// Tag byte of a failure reply.
pub const FAILURE_TAG: u8 = 0;

/// Tag byte of a success reply.
pub const SUCCESS_TAG: u8 = 1;

/// Tag byte of a skipped reply.
pub const SKIPPED_TAG: u8 = 2;

/// Bytes of a failure reply whose message is encoded as `msg`: the tag,
/// the message length as eight big-endian bytes, then the message.
pub open spec fn failure_bytes(msg: Seq<u8>) -> Seq<u8> {
    seq![FAILURE_TAG] + be_u64_bytes(msg.len() as u64) + msg
}

/// Bytes of a failure reply with the message `msg`.
pub open spec fn failure_reply(msg: Seq<char>) -> Seq<u8> {
    failure_bytes(encode_utf8(msg))
}

/// Bytes of a success reply carrying `payload`: the tag, then the payload
/// verbatim.
pub open spec fn success_reply(payload: Seq<u8>) -> Seq<u8> {
    seq![SUCCESS_TAG] + payload
}

/// Bytes of a skipped reply: the tag alone.
pub open spec fn skipped_reply() -> Seq<u8> {
    seq![SKIPPED_TAG]
}

/// A case that was run and failed, with a human-readable message.
#[derive(Clone, Debug, Eq, PartialEq)]
pub struct Failure {
    err_msg: String,
}

impl View for Failure {
    type V = Seq<char>;

    closed spec fn view(&self) -> Seq<char> {
        self.err_msg@
    }
}

impl Failure {
    /// A failure with an empty message.
    pub fn new() -> (r: Self)
        ensures
            r@ == Seq::<char>::empty(),
    {
        Failure { err_msg: String::new() }
    }

    /// A failure with the message `s`.
    pub fn from_str(s: &str) -> (r: Self)
        ensures
            r@ == s@,
    {
        Failure { err_msg: s.to_owned() }
    }

    /// The message of this failure.
    pub fn message(&self) -> (r: &str)
        ensures
            r@ == self@,
    {
        self.err_msg.as_str()
    }

    /// Encodes this failure: tag, big-endian length of the UTF-8 message,
    /// then the message itself.
    pub fn to_bytes(&self) -> (r: Vec<u8>)
        ensures
            r@ == failure_reply(self@),
    {
        let msg: &[u8] = self.err_msg.as_str().as_bytes();
        let mut result: Vec<u8> = Vec::new();
        result.push(FAILURE_TAG);
        append_be_u64(&mut result, msg.len() as u64);
        append_bytes(&mut result, msg);
        assert(result@ =~= failure_reply(self@));
        result
    }
}

/// A case that was run and succeeded, with its result bytes.
#[derive(Clone, Debug, Eq, PartialEq)]
pub struct Success {
    res: Vec<u8>,
}

impl View for Success {
    type V = Seq<u8>;

    closed spec fn view(&self) -> Seq<u8> {
        self.res@
    }
}

impl Success {
    /// A success carrying a copy of `bytes`.
    pub fn new(bytes: &[u8]) -> (r: Self)
        ensures
            r@ == bytes@,
    {
        let mut res: Vec<u8> = Vec::new();
        append_bytes(&mut res, bytes);
        Success { res }
    }

    /// The result bytes of this success.
    pub fn payload(&self) -> (r: &[u8])
        ensures
            r@ == self@,
    {
        self.res.as_slice()
    }

    /// Encodes this success: tag, then the result bytes with no length.
    pub fn to_bytes(&self) -> (r: Vec<u8>)
        ensures
            r@ == success_reply(self@),
    {
        let mut result: Vec<u8> = Vec::new();
        result.push(SUCCESS_TAG);
        append_bytes(&mut result, self.res.as_slice());
        assert(result@ =~= success_reply(self@));
        result
    }
}

/// A case that this adapter does not run.
#[derive(Clone, Copy, Debug, Eq, PartialEq)]
pub struct Skipped;

impl Skipped {
    /// The skipped reply.
    pub fn new() -> Self {
        Skipped
    }

    /// Encodes this reply: the tag alone.
    pub fn to_bytes(&self) -> (r: Vec<u8>)
        ensures
            r@ == skipped_reply(),
    {
        let r: Vec<u8> = vec![SKIPPED_TAG];
        assert(r@ =~= skipped_reply());
        r
    }
}

} // verus!
