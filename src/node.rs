//! The canonical node descriptor of the Tox DHT and its wire form.
//!
//! Wire form, as the Tox packet library writes and reads it:
//!
//! Length      | Content
//! ----------- | -------
//! `1`         | transport kind: 2 UDP/IPv4, 10 UDP/IPv6, 130 TCP/IPv4, 138 TCP/IPv6
//! `4` or `16` | address; an IPv6 address as eight little-endian 16-bit groups
//! `2`         | port, big-endian
//! `32`        | public key

use tox::crypto::PublicKey;
use tox::packet::ip_port::{IpPort, ProtocolType};
use tox::packet::packed_node::TcpUdpPackedNode;
use tox_binary_io::{FromBytes, ToBytes};
use vstd::prelude::*;

use crate::wire::be_u16_bytes;

verus! {

/// An IP address, as the bytes of its network-order form.
#[derive(Clone, Copy, Debug, Eq, PartialEq)]
pub enum NodeAddress {
    V4([u8; 4]),
    V6([u8; 16]),
}

/// The transport protocol a node is reached over.
#[derive(Clone, Copy, Debug, Eq, PartialEq)]
pub enum Protocol {
    Udp,
    Tcp,
}

/// The four transport kinds of a node descriptor.
#[derive(Clone, Copy, Debug, Eq, PartialEq)]
pub enum TransportKind {
    UdpV4,
    UdpV6,
    TcpV4,
    TcpV6,
}

/// A node descriptor: how to reach a node, and its public key.
#[derive(Clone, Copy, Debug, Eq, PartialEq)]
pub struct PackedNode {
    pub protocol: Protocol,
    pub addr: NodeAddress,
    pub port: u16,
    pub public_key: [u8; 32],
}

/// The network-order bytes of an address.
pub open spec fn address_octets(a: NodeAddress) -> Seq<u8> {
    match a {
        NodeAddress::V4(o) => o@,
        NodeAddress::V6(o) => o@,
    }
}

/// The transport kind of a node with protocol `p` at address `a`.
pub open spec fn kind_of(p: Protocol, a: NodeAddress) -> TransportKind {
    match (p, a) {
        (Protocol::Udp, NodeAddress::V4(_)) => TransportKind::UdpV4,
        (Protocol::Udp, NodeAddress::V6(_)) => TransportKind::UdpV6,
        (Protocol::Tcp, NodeAddress::V4(_)) => TransportKind::TcpV4,
        (Protocol::Tcp, NodeAddress::V6(_)) => TransportKind::TcpV6,
    }
}

/// Whether a transport kind is one of the UDP ones.
pub open spec fn is_udp_kind(k: TransportKind) -> bool {
    match k {
        TransportKind::UdpV4 | TransportKind::UdpV6 => true,
        TransportKind::TcpV4 | TransportKind::TcpV6 => false,
    }
}

/// The wire byte of a transport kind.
pub open spec fn kind_byte(k: TransportKind) -> u8 {
    match k {
        TransportKind::UdpV4 => 2,
        TransportKind::UdpV6 => 10,
        TransportKind::TcpV4 => 130,
        TransportKind::TcpV6 => 138,
    }
}

/// The 16 network-order bytes `o` with each pair of bytes swapped, which is
/// how eight 16-bit groups come out when written little-endian.
pub open spec fn swap_pairs(o: Seq<u8>) -> Seq<u8> {
    Seq::new(o.len(), |i: int| if i % 2 == 0 { o[i + 1] } else { o[i - 1] })
}

/// The address part of the wire form.
pub open spec fn canonical_address(a: NodeAddress) -> Seq<u8> {
    match a {
        NodeAddress::V4(o) => o@,
        NodeAddress::V6(o) => swap_pairs(o@),
    }
}

/// The wire form of a node descriptor.
pub open spec fn canonical_bytes(p: PackedNode) -> Seq<u8> {
    seq![kind_byte(kind_of(p.protocol, p.addr))] + canonical_address(p.addr) + be_u16_bytes(p.port)
        + p.public_key@
}

/// Whether the wire form of `p` starts `b`.
pub open spec fn canonical_prefix(b: Seq<u8>, p: PackedNode) -> bool {
    let c = canonical_bytes(p);
    c.len() <= b.len() && b.subrange(0, c.len() as int) == c
}

/// Whether `b` starts with the wire form of some node descriptor: a known
/// transport kind byte, followed by enough bytes for its address family.
pub open spec fn canonical_decodable(b: Seq<u8>) -> bool {
    &&& b.len() >= 1
    &&& (b[0] == 2 || b[0] == 130) ==> b.len() >= 39
    &&& (b[0] == 10 || b[0] == 138) ==> b.len() >= 51
    &&& b[0] == 2 || b[0] == 130 || b[0] == 10 || b[0] == 138
}

/// The node descriptor whose wire form starts `b`.
pub open spec fn canonical_decode(b: Seq<u8>) -> PackedNode {
    choose|p: PackedNode| canonical_prefix(b, p)
}

impl PackedNode {
    /// A node reached over UDP when `udp` holds and over TCP otherwise.
    pub fn new(udp: bool, addr: NodeAddress, port: u16, public_key: [u8; 32]) -> (r: Self)
        ensures
            r.protocol == (if udp { Protocol::Udp } else { Protocol::Tcp }),
            r.addr == addr,
            r.port == port,
            r.public_key == public_key,
    {
        let protocol = if udp {
            Protocol::Udp
        } else {
            Protocol::Tcp
        };
        PackedNode { protocol, addr, port, public_key }
    }

    /// The transport kind of this node.
    pub fn transport_kind(&self) -> (r: TransportKind)
        ensures
            r == kind_of(self.protocol, self.addr),
    {
        match (self.protocol, self.addr) {
            (Protocol::Udp, NodeAddress::V4(_)) => TransportKind::UdpV4,
            (Protocol::Udp, NodeAddress::V6(_)) => TransportKind::UdpV6,
            (Protocol::Tcp, NodeAddress::V4(_)) => TransportKind::TcpV4,
            (Protocol::Tcp, NodeAddress::V6(_)) => TransportKind::TcpV6,
        }
    }

    /// Decodes a node descriptor from the start of `bytes`; what follows it
    /// is left alone.
    pub fn from_bytes(bytes: &[u8]) -> (r: Option<PackedNode>)
        ensures
            r is Some <==> canonical_decodable(bytes@),
            r matches Some(p) ==> p == canonical_decode(bytes@),
    {
        let r = decode_canonical(bytes);
        if let Some(p) = r {
            proof { lemma_canonical_prefix_unique(bytes@, p, canonical_decode(bytes@)); }
        }
        r
    }

    /// The wire form of this node descriptor.
    pub fn to_bytes(&self) -> (r: Vec<u8>)
        ensures
            r@ == canonical_bytes(*self),
    {
        encode_canonical(self)
    }
}

/// Only one node descriptor has a wire form that starts `b`.
pub proof fn lemma_canonical_prefix_unique(b: Seq<u8>, p: PackedNode, q: PackedNode)
    requires
        canonical_prefix(b, p),
    ensures
        canonical_prefix(b, q) ==> q == p,
        canonical_prefix(b, canonical_decode(b)),
{
    assert(canonical_prefix(b, canonical_decode(b)));
    if canonical_prefix(b, q) {
        let cp = canonical_bytes(p);
        let cq = canonical_bytes(q);
        assert(cp[0] == b[0] && cq[0] == b[0]);
        assert(q.protocol == p.protocol);
        assert(q.addr is V4 <==> p.addr is V4);
        let n: int = if p.addr is V4 { 4 } else { 16 };
        assert(canonical_address(p.addr) =~= cp.subrange(1, 1 + n));
        assert(canonical_address(q.addr) =~= cq.subrange(1, 1 + n));
        assert(cp.subrange(1, 1 + n) =~= b.subrange(1, 1 + n));
        assert(cq.subrange(1, 1 + n) =~= b.subrange(1, 1 + n));
        match (p.addr, q.addr) {
            (NodeAddress::V4(x), NodeAddress::V4(y)) => {
                assert(x@ =~= y@);
                assert(x =~= y);
            },
            (NodeAddress::V6(x), NodeAddress::V6(y)) => {
                assert forall|i: int| 0 <= i < 16 implies x@[i] == y@[i] by {
                    if i % 2 == 0 {
                        assert(swap_pairs(x@)[i + 1] == swap_pairs(y@)[i + 1]);
                    } else {
                        assert(swap_pairs(x@)[i - 1] == swap_pairs(y@)[i - 1]);
                    }
                }
                assert(x@ =~= y@);
                assert(x =~= y);
            },
            _ => {},
        }
        assert(q.addr == p.addr);
        assert(cp[1 + n] == b[1 + n] && cq[1 + n] == b[1 + n]);
        assert(cp[2 + n] == b[2 + n] && cq[2 + n] == b[2 + n]);
        assert(q.port == p.port);
        assert(p.public_key@ =~= cp.subrange(3 + n, 35 + n));
        assert(q.public_key@ =~= cq.subrange(3 + n, 35 + n));
        assert(cp.subrange(3 + n, 35 + n) =~= b.subrange(3 + n, 35 + n));
        assert(cq.subrange(3 + n, 35 + n) =~= b.subrange(3 + n, 35 + n));
        assert(q.public_key@ == p.public_key@);
        assert(q.public_key =~= p.public_key);
    }
}

/// Relies on tox_packet's `TcpUdpPackedNode::from_bytes`: it reads the wire
/// form laid out above from the start of `bytes`, and fails on an unknown
/// kind byte or on too few bytes.
#[verifier::external_body]
fn decode_canonical(bytes: &[u8]) -> (r: Option<PackedNode>)
    ensures
        r is Some <==> canonical_decodable(bytes@),
        r matches Some(p) ==> canonical_prefix(bytes@, p),
{
    match TcpUdpPackedNode::from_bytes(bytes) {
        Ok((_, n)) => Some(PackedNode {
            protocol: match n.ip_port.protocol {
                ProtocolType::UDP => Protocol::Udp,
                ProtocolType::TCP => Protocol::Tcp,
            },
            addr: match n.ip_port.ip_addr {
                core::net::IpAddr::V4(a) => NodeAddress::V4(a.octets()),
                core::net::IpAddr::V6(a) => NodeAddress::V6(a.octets()),
            },
            port: n.ip_port.port,
            public_key: n.pk.0,
        }),
        Err(_) => None,
    }
}

/// Relies on tox_packet's `TcpUdpPackedNode::to_bytes`: it writes the wire
/// form laid out above, at most 51 bytes, into the buffer it is given.
#[verifier::external_body]
fn encode_canonical(node: &PackedNode) -> (r: Vec<u8>)
    ensures
        r@ == canonical_bytes(*node),
{
    let protocol = match node.protocol {
        Protocol::Udp => ProtocolType::UDP,
        Protocol::Tcp => ProtocolType::TCP,
    };
    let ip_addr = match node.addr {
        NodeAddress::V4(a) => a.into(),
        NodeAddress::V6(a) => a.into(),
    };
    let packed = TcpUdpPackedNode { ip_port: IpPort { protocol, ip_addr, port: node.port }, pk: PublicKey(node.public_key) };
    let mut buf = [0u8; 51];
    match packed.to_bytes((&mut buf, 0)) {
        Ok((out, size)) => out[..size].to_vec(),
        Err(_) => Vec::new(),
    }
}

} // verus!
