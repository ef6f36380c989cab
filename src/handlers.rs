//! One handler per test case: each reads its payload and answers with the
//! bytes of a reply.

use vstd::prelude::*;

use crate::crypto::{
    be_increment, bucket_index, compare_distance, distance_from, incremented_nonce, kbucket_index_of,
    nonce_from_slice, public_key_from_slice, xor_distance, NONCE_BYTES, PUBLIC_KEY_BYTES,
};
use crate::deconstructed::{dec_bytes, dec_decodable, dec_decode, dec_of_packed, packed_of_dec, DecPackedNode};
use crate::envelope::{failure_reply, success_reply, Failure, Success};
use crate::node::{canonical_bytes, canonical_decodable, canonical_decode, PackedNode};
use crate::wire::{be_u64_value, read_be_u64};

verus! {

/// Message when the first key of a distance case cannot be read.
pub const OWN_PK_ERROR: &'static str = "Failed to parse bytes into \"own\" PK.";

/// Message when the second key of a distance case cannot be read.
pub const ALICE_PK_ERROR: &'static str = "Failed to parse bytes into Alice PK.";

/// Message when the third key of a distance case cannot be read.
pub const BOB_PK_ERROR: &'static str = "Failed to parse bytes into Bob PK.";

/// Message when the first key of a bucket-index case cannot be read.
pub const PK1_ERROR: &'static str = "Wrong amount of bytes for PK1!";

/// Message when the second key of a bucket-index case cannot be read.
pub const PK2_ERROR: &'static str = "Wrong amount of bytes for PK2!";

/// Message when the nonce of a nonce case cannot be read.
pub const NONCE_ERROR: &'static str = "Wrong amount of bytes for nonce!";

/// Message when a node descriptor cannot be read.
pub const PACKED_NODE_ERROR: &'static str = "Failed to parse as PackedNode";

/// Message when a length field promises more bytes than are left.
pub const LENGTH_ERROR: &'static str = "Length field exceeds the input";

/// The bytes of `b` from `start` to `end`, both cut back to the length of `b`.
pub open spec fn window(b: Seq<u8>, start: int, end: int) -> Seq<u8> {
    let s = if start < b.len() { start } else { b.len() as int };
    let e = if end < b.len() { end } else { b.len() as int };
    b.subrange(s, if e < s { s } else { e })
}

/// The reply byte for an ordering: `0` for less, `1` for equal, `2` for
/// greater.
pub open spec fn ordering_byte(o: std::cmp::Ordering) -> u8 {
    match o {
        std::cmp::Ordering::Less => 0,
        std::cmp::Ordering::Equal => 1,
        std::cmp::Ordering::Greater => 2,
    }
}

/// The reply to a distance case with payload `b`.
pub open spec fn distance_reply(b: Seq<u8>) -> Seq<u8> {
    if b.len() < 32 {
        failure_reply(OWN_PK_ERROR@)
    } else if b.len() < 64 {
        failure_reply(ALICE_PK_ERROR@)
    } else if b.len() < 96 {
        failure_reply(BOB_PK_ERROR@)
    } else {
        success_reply(
            seq![ordering_byte(xor_distance(b.subrange(0, 32), b.subrange(32, 64), b.subrange(64, 96)))],
        )
    }
}

/// The reply to a bucket-index case with payload `b`; a computed index is
/// answered without a success tag.
pub open spec fn kbucket_reply(b: Seq<u8>) -> Seq<u8> {
    if b.len() < 32 {
        failure_reply(PK1_ERROR@)
    } else if b.len() < 64 {
        failure_reply(PK2_ERROR@)
    } else {
        match bucket_index(b.subrange(0, 32), b.subrange(32, 64)) {
            Some(i) => seq![1u8, i],
            None => seq![0u8],
        }
    }
}

/// The reply to a nonce case with payload `b`.
pub open spec fn nonce_reply(b: Seq<u8>) -> Seq<u8> {
    if b.len() < 24 {
        failure_reply(NONCE_ERROR@)
    } else {
        success_reply(be_increment(b.subrange(0, 24)))
    }
}

/// Whether `b` holds a big-endian eight-byte length and at least that many
/// bytes after it.
pub open spec fn framed(b: Seq<u8>) -> bool {
    b.len() >= 8 && be_u64_value(b) <= b.len() - 8
}

/// The bytes that the length field at the start of `b` announces.
pub open spec fn frame_body(b: Seq<u8>) -> Seq<u8> {
    b.subrange(8, 8 + be_u64_value(b))
}

/// The reply to a node-descriptor decode with payload `b`: the descriptor
/// read from the framed bytes, written back in its wire form.
pub open spec fn node_info_reply(b: Seq<u8>) -> Seq<u8> {
    if !framed(b) {
        failure_reply(LENGTH_ERROR@)
    } else if !canonical_decodable(frame_body(b)) {
        failure_reply(PACKED_NODE_ERROR@)
    } else {
        success_reply(canonical_bytes(canonical_decode(frame_body(b))))
    }
}

/// The reply to a decode round trip with payload `b`: the descriptor read
/// from the framed bytes, in its deconstructed form.
pub open spec fn decode_packed_node_reply(b: Seq<u8>) -> Seq<u8> {
    if !framed(b) {
        failure_reply(LENGTH_ERROR@)
    } else if !canonical_decodable(frame_body(b)) {
        failure_reply(PACKED_NODE_ERROR@)
    } else {
        success_reply(dec_bytes(dec_of_packed(canonical_decode(frame_body(b)))))
    }
}

/// The reply to an encode round trip with payload `b`: the deconstructed
/// value read from `b`, in the descriptor wire form.
pub open spec fn encode_packed_node_reply(b: Seq<u8>) -> Seq<u8> {
    if !dec_decodable(b) {
        failure_reply(Seq::<char>::empty())
    } else {
        success_reply(canonical_bytes(packed_of_dec(dec_decode(b))))
    }
}

/// The bytes of `b` from `start` to `end`, both cut back to its length.
pub fn window_of(b: &[u8], start: usize, end: usize) -> (r: &[u8])
    ensures
        r@ == window(b@, start as int, end as int),
{
    let s = if start < b.len() { start } else { b.len() };
    let e = if end < b.len() { end } else { b.len() };
    &b[s..if e < s { s } else { e }]
}

/// The framed bytes at the start of `b`, if its length field fits.
pub fn frame_of(b: &[u8]) -> (r: Option<&[u8]>)
    ensures
        r is Some <==> framed(b@),
        r matches Some(body) ==> body@ == frame_body(b@),
{
    if b.len() < 8 {
        return None;
    }
    let n = read_be_u64(b);
    if n > (b.len() - 8) as u64 {
        return None;
    }
    Some(&b[8..8 + n as usize])
}

/// Reads the keys `own`, `alice` and `bob` and answers which of `alice` and
/// `bob` is closer to `own`: `0` for `alice`, `1` for neither, `2` for `bob`.
pub fn parse_distance(bytes: &[u8]) -> (r: Vec<u8>)
    ensures
        r@ == distance_reply(bytes@),
{
    let own_pk = match public_key_from_slice(window_of(bytes, 0, PUBLIC_KEY_BYTES)) {
        Some(pk) => pk,
        None => return Failure::from_str(OWN_PK_ERROR).to_bytes(),
    };
    let alice_pk = match public_key_from_slice(window_of(bytes, 32, 64)) {
        Some(pk) => pk,
        None => return Failure::from_str(ALICE_PK_ERROR).to_bytes(),
    };
    let bob_pk = match public_key_from_slice(window_of(bytes, 64, 96)) {
        Some(pk) => pk,
        None => return Failure::from_str(BOB_PK_ERROR).to_bytes(),
    };
    let order: u8 = match compare_distance(&own_pk, &alice_pk, &bob_pk) {
        std::cmp::Ordering::Less => 0,
        std::cmp::Ordering::Equal => 1,
        std::cmp::Ordering::Greater => 2,
    };
    Success::new(&[order]).to_bytes()
}

/// When `alice` and `bob` are the same key, neither is closer: the answer is
/// a success carrying `1`, whatever `own` is.
pub proof fn lemma_equal_keys_tie(b: Seq<u8>)
    requires
        b.len() >= 96,
        b.subrange(32, 64) == b.subrange(64, 96),
    ensures
        distance_reply(b) == seq![1u8, 1u8],
{
    lemma_distance_to_same_key(b.subrange(0, 32), b.subrange(32, 64), 0);
    assert(distance_reply(b) =~= seq![1u8, 1u8]);
}

/// Two equal keys are equally far from any key.
proof fn lemma_distance_to_same_key(own: Seq<u8>, a: Seq<u8>, i: int)
    requires
        0 <= i,
    ensures
        distance_from(own, a, a, i) == std::cmp::Ordering::Equal,
    decreases a.len() - i,
{
    if i < a.len() {
        lemma_distance_to_same_key(own, a, i + 1);
    }
}

/// Reads two keys and answers their bucket index: `[1, index]`, or `[0]`
/// for equal keys. This answer carries no success tag.
pub fn parse_kbucket_index(bytes: &[u8]) -> (r: Vec<u8>)
    ensures
        r@ == kbucket_reply(bytes@),
{
    let pk1 = match public_key_from_slice(window_of(bytes, 0, PUBLIC_KEY_BYTES)) {
        Some(pk) => pk,
        None => return Failure::from_str(PK1_ERROR).to_bytes(),
    };
    let pk2 = match public_key_from_slice(window_of(bytes, 32, 64)) {
        Some(pk) => pk,
        None => return Failure::from_str(PK2_ERROR).to_bytes(),
    };
    match kbucket_index_of(&pk1, &pk2) {
        Some(i) => vec![1, i],
        None => vec![0],
    }
}

/// Reads a nonce and answers it incremented by one.
pub fn parse_nonce(bytes: &[u8]) -> (r: Vec<u8>)
    ensures
        r@ == nonce_reply(bytes@),
{
    let nonce = match nonce_from_slice(window_of(bytes, 0, NONCE_BYTES)) {
        Some(n) => n,
        None => return Failure::from_str(NONCE_ERROR).to_bytes(),
    };
    let next = incremented_nonce(nonce);
    Success::new(&next).to_bytes()
}

/// Reads a node descriptor from the framed bytes of `bytes` and answers its
/// wire form.
pub fn parse_node_info(bytes: &[u8]) -> (r: Vec<u8>)
    ensures
        r@ == node_info_reply(bytes@),
{
    let body = match frame_of(bytes) {
        Some(body) => body,
        None => return Failure::from_str(LENGTH_ERROR).to_bytes(),
    };
    match PackedNode::from_bytes(body) {
        Some(pn) => Success::new(&pn.to_bytes()).to_bytes(),
        None => Failure::from_str(PACKED_NODE_ERROR).to_bytes(),
    }
}

/// Reads a node descriptor from the framed bytes of `bytes` and answers its
/// deconstructed form.
pub fn parse_decode_packed_node(bytes: &[u8]) -> (r: Vec<u8>)
    ensures
        r@ == decode_packed_node_reply(bytes@),
{
    let body = match frame_of(bytes) {
        Some(body) => body,
        None => return Failure::from_str(LENGTH_ERROR).to_bytes(),
    };
    match PackedNode::from_bytes(body) {
        Some(pn) => Success::new(&DecPackedNode::from_packed_node(&pn).to_bytes()).to_bytes(),
        None => Failure::from_str(PACKED_NODE_ERROR).to_bytes(),
    }
}

/// Reads a deconstructed value and answers the wire form of its node
/// descriptor.
pub fn parse_encode_packed_node(bytes: &[u8]) -> (r: Vec<u8>)
    ensures
        r@ == encode_packed_node_reply(bytes@),
{
    match DecPackedNode::from_bytes(bytes) {
        Some(dpn) => Success::new(&dpn.as_packed_node().to_bytes()).to_bytes(),
        None => Failure::new().to_bytes(),
    }
}

} // verus!
