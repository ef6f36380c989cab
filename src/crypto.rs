//! Public keys and nonces, and the DHT operations on them that the Tox
//! libraries provide.
//!
//! Keys and nonces travel through this library as plain byte arrays; each
//! operation below hands them to the Tox types and takes plain bytes back.


use tox::crypto::{increment_nonce, Nonce, PublicKey};
use vstd::prelude::*;

verus! {

/// Size in bytes of a public key.
pub const PUBLIC_KEY_BYTES: usize = 32;

/// Size in bytes of a nonce.
pub const NONCE_BYTES: usize = 24;

/// `s` read as a big-endian number, plus one; all ones wrap to all zeros.
pub open spec fn be_increment(s: Seq<u8>) -> Seq<u8>
    decreases s.len(),
{
    if s.len() == 0 {
        s
    } else if s.last() < 255 {
        s.drop_last().push((s.last() + 1) as u8)
    } else {
        be_increment(s.drop_last()).push(0u8)
    }
}

/// How `x` compares with `y`.
pub open spec fn cmp_u8(x: u8, y: u8) -> std::cmp::Ordering {
    if x < y {
        std::cmp::Ordering::Less
    } else if x > y {
        std::cmp::Ordering::Greater
    } else {
        std::cmp::Ordering::Equal
    }
}

/// Compares the XOR distances from `own` to `a` and from `own` to `b`,
/// looking from byte `i` on: the first byte where `a` and `b` differ
/// decides, and keys equal from there on are equally far.
pub open spec fn distance_from(own: Seq<u8>, a: Seq<u8>, b: Seq<u8>, i: int) -> std::cmp::Ordering
    decreases a.len() - i,
{
    if i < 0 || i >= a.len() {
        std::cmp::Ordering::Equal
    } else if a[i] != b[i] {
        cmp_u8(own[i] ^ a[i], own[i] ^ b[i])
    } else {
        distance_from(own, a, b, i + 1)
    }
}

/// Whether `a` (`Less`) or `b` (`Greater`) is closer to `own` in the XOR
/// metric, or neither (`Equal`).
pub open spec fn xor_distance(own: Seq<u8>, a: Seq<u8>, b: Seq<u8>) -> std::cmp::Ordering {
    distance_from(own, a, b, 0)
}

/// Position of the most significant set bit of `x`, counted from the top:
/// 0 for the bit worth 128, 7 for the bit worth 1.
pub open spec fn leading_zeros(x: u8) -> int {
    if x >= 128 {
        0
    } else if x >= 64 {
        1
    } else if x >= 32 {
        2
    } else if x >= 16 {
        3
    } else if x >= 8 {
        4
    } else if x >= 4 {
        5
    } else if x >= 2 {
        6
    } else {
        7
    }
}

/// Bucket index of `b` seen from `a`, looking from byte `i` on: the index
/// of the first bit where the keys differ, or `None` where they do not.
pub open spec fn bucket_index_from(a: Seq<u8>, b: Seq<u8>, i: int) -> Option<u8>
    decreases a.len() - i,
{
    if i < 0 || i >= a.len() {
        None
    } else if a[i] != b[i] {
        Some((i * 8 + leading_zeros(a[i] ^ b[i])) as u8)
    } else {
        bucket_index_from(a, b, i + 1)
    }
}

/// The k-bucket index of `other` seen from `own`: the index of the first
/// bit, most significant bit of the first byte first, where the two keys
/// differ; `None` for equal keys.
pub open spec fn bucket_index(own: Seq<u8>, other: Seq<u8>) -> Option<u8> {
    bucket_index_from(own, other, 0)
}

/// Relies on sodiumoxide's `PublicKey::from_slice`: it accepts exactly
/// `PUBLIC_KEY_BYTES` bytes and copies them.
#[verifier::external_body]
pub(crate) fn public_key_from_slice(bs: &[u8]) -> (r: Option<[u8; 32]>)
    ensures
        r is Some <==> bs@.len() == PUBLIC_KEY_BYTES,
        r matches Some(k) ==> k@ == bs@,
{
    PublicKey::from_slice(bs).map(|pk| pk.0)
}

/// Relies on sodiumoxide's `Nonce::from_slice`: it accepts exactly
/// `NONCE_BYTES` bytes and copies them.
#[verifier::external_body]
pub(crate) fn nonce_from_slice(bs: &[u8]) -> (r: Option<[u8; 24]>)
    ensures
        r is Some <==> bs@.len() == NONCE_BYTES,
        r matches Some(n) ==> n@ == bs@,
{
    Nonce::from_slice(bs).map(|n| n.0)
}

/// Relies on tox_crypto's `increment_nonce`: the nonce, read as a
/// big-endian number, goes up by one, and all ones become all zeros.
#[verifier::external_body]
pub(crate) fn incremented_nonce(n: [u8; 24]) -> (r: [u8; 24])
    ensures
        r@ == be_increment(n@),
{
    let mut nonce = Nonce(n);
    increment_nonce(&mut nonce);
    nonce.0
}

/// Relies on tox_core's `Distance::distance` for `PublicKey`: at the first
/// byte where `a` and `b` differ it compares `own ^ a` with `own ^ b`.
#[verifier::external_body]
pub(crate) fn compare_distance(own: &[u8; 32], a: &[u8; 32], b: &[u8; 32]) -> (r: std::cmp::Ordering)
    ensures
        r == xor_distance(own@, a@, b@),
{
    tox::core::dht::kbucket::Distance::distance(&PublicKey(*own), &PublicKey(*a), &PublicKey(*b))
}

/// Relies on tox_core's `kbucket_index`: the index of the first differing
/// bit of the two keys, or `None` when they are equal.
#[verifier::external_body]
pub(crate) fn kbucket_index_of(own: &[u8; 32], other: &[u8; 32]) -> (r: Option<u8>)
    ensures
        r == bucket_index(own@, other@),
{
    tox::core::dht::kbucket::kbucket_index(&PublicKey(*own), &PublicKey(*other))
}

} // verus!
