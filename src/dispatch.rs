//! Reading a request and routing it to its handler.
//!
//! Request form:
//!
//! Length  | Content
//! ------- | -------
//! `8`     | length `n` of the test name, big-endian
//! `n`     | test name, UTF-8
//! rest    | payload of the test case

use vstd::prelude::*;
use vstd::string::StringSliceAdditionalSpecFns;

use crate::envelope::{failure_reply, skipped_reply, success_reply, Failure, Skipped, Success};
use crate::handlers::{
    distance_reply, frame_body, frame_of, framed, kbucket_reply, node_info_reply, nonce_reply,
    parse_distance, parse_kbucket_index, parse_node_info, parse_nonce, LENGTH_ERROR,
};

verus! {

/// Name of the case that always fails.
pub const TEST_FAILURE: &'static str = "TestFailure";

/// Name of the case that always succeeds.
pub const TEST_SUCCESS: &'static str = "TestSuccess";

/// Name of the case that is always skipped.
pub const SKIPPED_TEST: &'static str = "SkippedTest";

/// Name of the XOR distance case.
pub const DISTANCE: &'static str = "Distance";

/// Name of the nonce increment case.
pub const NONCE_INCREMENT: &'static str = "NonceIncrement";

/// Name of the k-bucket index case, spelled as the wire protocol spells it.
pub const KBUCKET_INDEX: &'static str = "KBucektIndex";

/// Name of the node-descriptor decode case.
pub const BINARY_DECODE_NODE_INFO: &'static str = "BinaryDecode NodeInfo";

/// Size of the length field that precedes a node-descriptor decode payload.
pub const NODE_INFO_SKIP: usize = 8;

/// Whether `name` is the name of a case that this adapter runs.
pub open spec fn is_known_name(name: Seq<u8>) -> bool {
    ||| name == TEST_FAILURE.spec_bytes()
    ||| name == TEST_SUCCESS.spec_bytes()
    ||| name == SKIPPED_TEST.spec_bytes()
    ||| name == DISTANCE.spec_bytes()
    ||| name == NONCE_INCREMENT.spec_bytes()
    ||| name == KBUCKET_INDEX.spec_bytes()
    ||| name == BINARY_DECODE_NODE_INFO.spec_bytes()
}

/// The reply to the case named `name` with payload `rest`.
pub open spec fn case_reply(name: Seq<u8>, rest: Seq<u8>) -> Seq<u8> {
    if name == TEST_FAILURE.spec_bytes() {
        failure_reply(Seq::<char>::empty())
    } else if name == TEST_SUCCESS.spec_bytes() {
        success_reply(Seq::<u8>::empty())
    } else if name == SKIPPED_TEST.spec_bytes() {
        skipped_reply()
    } else if name == DISTANCE.spec_bytes() {
        distance_reply(rest)
    } else if name == NONCE_INCREMENT.spec_bytes() {
        nonce_reply(rest)
    } else if name == KBUCKET_INDEX.spec_bytes() {
        kbucket_reply(rest)
    } else if name == BINARY_DECODE_NODE_INFO.spec_bytes() {
        if rest.len() < NODE_INFO_SKIP {
            failure_reply(LENGTH_ERROR@)
        } else {
            node_info_reply(rest.subrange(NODE_INFO_SKIP as int, rest.len() as int))
        }
    } else {
        skipped_reply()
    }
}

/// The reply to the request `b`. A request whose name cannot be read is
/// skipped.
pub open spec fn request_reply(b: Seq<u8>) -> Seq<u8> {
    if !framed(b) {
        skipped_reply()
    } else {
        case_reply(frame_body(b), b.subrange(8 + frame_body(b).len() as int, b.len() as int))
    }
}

/// Whether `a` and `b` hold the same bytes.
pub fn bytes_equal(a: &[u8], b: &[u8]) -> (r: bool)
    ensures
        r == (a@ == b@),
{
    if a.len() != b.len() {
        return false;
    }
    let mut i: usize = 0;
    while i < a.len()
        invariant
            a@.len() == b@.len(),
            i <= a@.len(),
            a@.subrange(0, i as int) == b@.subrange(0, i as int),
        decreases a@.len() - i,
    {
        if a[i] != b[i] {
            assert(a@[i as int] != b@[i as int]);
            return false;
        }
        assert(a@.subrange(0, i + 1) =~= a@.subrange(0, i as int).push(a@[i as int]));
        assert(b@.subrange(0, i + 1) =~= b@.subrange(0, i as int).push(b@[i as int]));
        i = i + 1;
    }
    assert(a@ =~= a@.subrange(0, i as int));
    assert(b@ =~= b@.subrange(0, i as int));
    true
}

/// Answers the request `bytes`: reads the test name and hands the payload
/// that follows it to the handler of that case. Unknown names, and names
/// that cannot be read, are answered with a skipped reply.
pub fn parse(bytes: &[u8]) -> (r: Vec<u8>)
    ensures
        r@ == request_reply(bytes@),
{
    let name = match frame_of(bytes) {
        Some(name) => name,
        None => return Skipped::new().to_bytes(),
    };
    assert(8 + name.len() <= bytes.len());
    let start: usize = 8 + name.len();
    let rest = &bytes[start..bytes.len()];
    if bytes_equal(name, TEST_FAILURE.as_bytes()) {
        Failure::new().to_bytes()
    } else if bytes_equal(name, TEST_SUCCESS.as_bytes()) {
        Success::new(&[]).to_bytes()
    } else if bytes_equal(name, SKIPPED_TEST.as_bytes()) {
        Skipped::new().to_bytes()
    } else if bytes_equal(name, DISTANCE.as_bytes()) {
        parse_distance(rest)
    } else if bytes_equal(name, NONCE_INCREMENT.as_bytes()) {
        parse_nonce(rest)
    } else if bytes_equal(name, KBUCKET_INDEX.as_bytes()) {
        parse_kbucket_index(rest)
    } else if bytes_equal(name, BINARY_DECODE_NODE_INFO.as_bytes()) {
        if rest.len() < NODE_INFO_SKIP {
            Failure::from_str(LENGTH_ERROR).to_bytes()
        } else {
            parse_node_info(&rest[NODE_INFO_SKIP..rest.len()])
        }
    } else {
        Skipped::new().to_bytes()
    }
}

/// A request whose name is none of the known ones, or cannot be read, is
/// answered with the single byte `0x02`.
pub proof fn lemma_unknown_name_skipped(b: Seq<u8>)
    requires
        !framed(b) || !is_known_name(frame_body(b)),
    ensures
        request_reply(b) == seq![2u8],
{
}

} // verus!
