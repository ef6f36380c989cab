//! The deconstructed form of a node descriptor.
//!
//! Serialized form:
//!
//! Length      | Content
//! ----------- | -------
//! `1`         | `0` for UDP, `1` for TCP (when read, only `1` means TCP)
//! `1`         | `0` for IPv4, `1` for IPv6 (when read, only `1` means IPv6)
//! `4` or `16` | address, network order
//! `2`         | port, big-endian
//! `32`        | public key

use vstd::prelude::*;

use crate::crypto::public_key_from_slice;
use crate::node::{address_octets, is_udp_kind, kind_of, NodeAddress, PackedNode, Protocol};
use crate::wire::{append_bytes, be_u16_bytes, be_u16_value};

verus! {

/// Smallest size in bytes of a serialized `DecPackedNode` (an IPv4 one).
pub const DEC_PACKED_NODE_MIN: usize = 40;

/// Largest size in bytes of a serialized `DecPackedNode` (an IPv6 one).
pub const DEC_PACKED_NODE_MAX: usize = 52;

/// A node descriptor with its transport spelled out as a flag.
///
/// `udp` holds for a node reached over UDP; the serialized form stores its
/// negation, a "TCP" byte.
#[derive(Clone, Copy, Debug, Eq, PartialEq)]
pub struct DecPackedNode {
    pub udp: bool,
    pub addr: NodeAddress,
    pub port: u16,
    pub public_key: [u8; 32],
}

/// The family byte of an address.
pub open spec fn family_byte(a: NodeAddress) -> u8 {
    match a {
        NodeAddress::V4(_) => 0,
        NodeAddress::V6(_) => 1,
    }
}

/// The serialized form of `d`.
pub open spec fn dec_bytes(d: DecPackedNode) -> Seq<u8> {
    seq![if d.udp { 0u8 } else { 1u8 }, family_byte(d.addr)] + address_octets(d.addr)
        + be_u16_bytes(d.port) + d.public_key@
}

/// Whether `b` is long enough to be read: 40 bytes, or 52 when the family
/// byte says IPv6.
pub open spec fn dec_decodable(b: Seq<u8>) -> bool {
    b.len() >= DEC_PACKED_NODE_MIN && (b[1] == 1 ==> b.len() >= DEC_PACKED_NODE_MAX)
}

/// Whether reading `b` gives `d`: a transport byte of `1` means TCP and any
/// other UDP; a family byte of `1` means IPv6 and any other IPv4.
pub open spec fn dec_decodes_to(b: Seq<u8>, d: DecPackedNode) -> bool {
    &&& d.udp == (b[0] != 1)
    &&& if b[1] == 1 {
        &&& d.addr matches NodeAddress::V6(o) && o@ == b.subrange(2, 18)
        &&& d.port == be_u16_value(b[18], b[19])
        &&& d.public_key@ == b.subrange(20, 52)
    } else {
        &&& d.addr matches NodeAddress::V4(o) && o@ == b.subrange(2, 6)
        &&& d.port == be_u16_value(b[6], b[7])
        &&& d.public_key@ == b.subrange(8, 40)
    }
}

/// The value that reading `b` gives.
pub open spec fn dec_decode(b: Seq<u8>) -> DecPackedNode {
    choose|d: DecPackedNode| dec_decodes_to(b, d)
}

/// The deconstructed form of a node descriptor: UDP kinds give `udp`.
pub open spec fn dec_of_packed(p: PackedNode) -> DecPackedNode {
    DecPackedNode {
        udp: is_udp_kind(kind_of(p.protocol, p.addr)),
        addr: p.addr,
        port: p.port,
        public_key: p.public_key,
    }
}

/// The node descriptor of a deconstructed value: `udp` gives UDP.
pub open spec fn packed_of_dec(d: DecPackedNode) -> PackedNode {
    PackedNode {
        protocol: if d.udp { Protocol::Udp } else { Protocol::Tcp },
        addr: d.addr,
        port: d.port,
        public_key: d.public_key,
    }
}

impl DecPackedNode {
    /// The node descriptor this value stands for.
    pub fn as_packed_node(&self) -> (r: PackedNode)
        ensures
            r == packed_of_dec(*self),
    {
        PackedNode::new(self.udp, self.addr, self.port, self.public_key)
    }

    /// The deconstructed form of `pn`.
    pub fn from_packed_node(pn: &PackedNode) -> (r: Self)
        ensures
            r == dec_of_packed(*pn),
    {
        let udp = match pn.transport_kind() {
            crate::node::TransportKind::UdpV4 | crate::node::TransportKind::UdpV6 => true,
            _ => false,
        };
        DecPackedNode { udp, addr: pn.addr, port: pn.port, public_key: pn.public_key }
    }

    /// Serializes this value.
    pub fn to_bytes(&self) -> (r: Vec<u8>)
        ensures
            r@ == dec_bytes(*self),
            DEC_PACKED_NODE_MIN <= r@.len() <= DEC_PACKED_NODE_MAX,
    {
        let mut result: Vec<u8> = Vec::new();
        if self.udp {
            result.push(0);
        } else {
            result.push(1);
        }
        match self.addr {
            NodeAddress::V4(a) => {
                result.push(0);
                append_bytes(&mut result, &a);
            },
            NodeAddress::V6(a) => {
                result.push(1);
                append_bytes(&mut result, &a);
            },
        }
        result.push((self.port / 256) as u8);
        result.push((self.port % 256) as u8);
        append_bytes(&mut result, &self.public_key);
        assert(result@ =~= dec_bytes(*self));
        result
    }

    /// Reads a value from the start of `bytes`.
    pub fn from_bytes(bytes: &[u8]) -> (r: Option<Self>)
        ensures
            r is Some <==> dec_decodable(bytes@),
            r matches Some(d) ==> dec_decodes_to(bytes@, d) && d == dec_decode(bytes@),
    {
        if bytes.len() < DEC_PACKED_NODE_MIN {
            return None;
        }
        let udp = bytes[0] != 1;
        let r = if bytes[1] == 1 {
            if bytes.len() < DEC_PACKED_NODE_MAX {
                return None;
            }
            let ipv6: [u8; 16] = [
                bytes[2], bytes[3], bytes[4], bytes[5], bytes[6], bytes[7], bytes[8], bytes[9],
                bytes[10], bytes[11], bytes[12], bytes[13], bytes[14], bytes[15], bytes[16],
                bytes[17],
            ];
            assert(ipv6@ =~= bytes@.subrange(2, 18));
            let port = bytes[18] as u16 * 256 + bytes[19] as u16;
            match public_key_from_slice(&bytes[20..52]) {
                Some(pk) => Some(
                    DecPackedNode { udp, addr: NodeAddress::V6(ipv6), port, public_key: pk },
                ),
                None => None,
            }
        } else {
            let ipv4: [u8; 4] = [bytes[2], bytes[3], bytes[4], bytes[5]];
            assert(ipv4@ =~= bytes@.subrange(2, 6));
            let port = bytes[6] as u16 * 256 + bytes[7] as u16;
            match public_key_from_slice(&bytes[8..40]) {
                Some(pk) => Some(
                    DecPackedNode { udp, addr: NodeAddress::V4(ipv4), port, public_key: pk },
                ),
                None => None,
            }
        };
        if let Some(d) = r {
            proof { lemma_dec_decode_unique(bytes@, d); }
        }
        r
    }
}

/// Reading a byte string gives at most one value.
pub proof fn lemma_dec_decode_unique(b: Seq<u8>, d: DecPackedNode)
    requires
        dec_decodes_to(b, d),
    ensures
        dec_decode(b) == d,
        forall|e: DecPackedNode| dec_decodes_to(b, e) ==> e == d,
{
    assert forall|e: DecPackedNode| dec_decodes_to(b, e) implies e == d by {
        match (d.addr, e.addr) {
            (NodeAddress::V4(x), NodeAddress::V4(y)) => {
                assert(x =~= y);
            },
            (NodeAddress::V6(x), NodeAddress::V6(y)) => {
                assert(x =~= y);
            },
            _ => {},
        }
        assert(e.public_key =~= d.public_key);
    }
}

/// Reading the serialized form of a value gives that value back.
pub proof fn lemma_dec_bytes_round_trip(d: DecPackedNode)
    ensures
        dec_decodable(dec_bytes(d)),
        dec_decodes_to(dec_bytes(d), d),
        dec_decode(dec_bytes(d)) == d,
{
    let b = dec_bytes(d);
    assert((d.port / 256) as int * 256 + (d.port % 256) as int == d.port as int);
    match d.addr {
        NodeAddress::V4(o) => {
            assert(b.subrange(2, 6) =~= o@);
            assert(b.subrange(8, 40) =~= d.public_key@);
        },
        NodeAddress::V6(o) => {
            assert(b.subrange(2, 18) =~= o@);
            assert(b.subrange(20, 52) =~= d.public_key@);
        },
    }
    lemma_dec_decode_unique(b, d);
}

/// For every node descriptor `p`: reading the serialized deconstructed form
/// of `p` gives the deconstructed form of `p`, and converting that back
/// gives `p`.
pub proof fn lemma_round_trip(p: PackedNode)
    ensures
        dec_decodable(dec_bytes(dec_of_packed(p))),
        dec_decode(dec_bytes(dec_of_packed(p))) == dec_of_packed(p),
        packed_of_dec(dec_decode(dec_bytes(dec_of_packed(p)))) == p,
{
    lemma_dec_bytes_round_trip(dec_of_packed(p));
}

/// Reading a transport byte of `1` gives `udp == false`, and any other byte
/// gives `udp == true`.
pub proof fn lemma_transport_flag(b: Seq<u8>, d: DecPackedNode)
    requires
        dec_decodes_to(b, d),
    ensures
        b[0] == 1 ==> !d.udp,
        b[0] != 1 ==> d.udp,
{
}

/// A family byte other than `1` is read as IPv4, and reading then fails
/// exactly when fewer than 40 bytes are given.
pub proof fn lemma_family_fallback(b: Seq<u8>)
    requires
        b.len() >= 2,
        b[1] != 1,
    ensures
        dec_decodable(b) <==> b.len() >= DEC_PACKED_NODE_MIN,
        forall|d: DecPackedNode| dec_decodes_to(b, d) ==> d.addr is V4,
{
}

} // verus!
