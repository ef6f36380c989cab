use toxcore_adapter::deconstructed::DecPackedNode;
use toxcore_adapter::node::{NodeAddress, PackedNode, Protocol, TransportKind};

fn key(first: u8) -> [u8; 32] {
    let mut k = [0u8; 32];
    for (i, b) in k.iter_mut().enumerate() {
        *b = first.wrapping_add(i as u8);
    }
    k
}

fn ipv4_record(transport: u8, family: u8) -> Vec<u8> {
    let mut b = vec![transport, family, 192, 168, 1, 2, 0x1f, 0x90];
    b.extend_from_slice(&key(100));
    b
}

#[test]
fn decode_39_bytes_fails() {
    let b = ipv4_record(0, 0);
    assert_eq!(DecPackedNode::from_bytes(&b[..39]), None);
}

#[test]
fn decode_40_bytes_family_zero_succeeds() {
    let b = ipv4_record(0, 0);
    assert_eq!(b.len(), 40);
    let d = DecPackedNode::from_bytes(&b).unwrap();
    assert!(d.udp);
    assert_eq!(d.addr, NodeAddress::V4([192, 168, 1, 2]));
    assert_eq!(d.port, 8080);
    assert_eq!(d.public_key, key(100));
}

#[test]
fn decode_empty_fails() {
    assert_eq!(DecPackedNode::from_bytes(&[]), None);
}

#[test]
fn transport_byte_one_means_tcp() {
    let d = DecPackedNode::from_bytes(&ipv4_record(1, 0)).unwrap();
    assert!(!d.udp);
}

#[test]
fn other_transport_bytes_mean_udp() {
    for t in [0u8, 2, 7, 255] {
        let d = DecPackedNode::from_bytes(&ipv4_record(t, 0)).unwrap();
        assert!(d.udp);
    }
}

#[test]
fn unknown_family_falls_back_to_ipv4() {
    for f in [0u8, 2, 9, 255] {
        let d = DecPackedNode::from_bytes(&ipv4_record(0, f)).unwrap();
        assert_eq!(d.addr, NodeAddress::V4([192, 168, 1, 2]));
        assert_eq!(DecPackedNode::from_bytes(&ipv4_record(0, f)[..39]), None);
    }
}

#[test]
fn ipv6_needs_52_bytes() {
    let mut b = vec![1u8, 1];
    b.extend((1..=16).collect::<Vec<u8>>());
    b.extend_from_slice(&[0x00, 0x50]);
    b.extend_from_slice(&key(3));
    assert_eq!(b.len(), 52);
    assert_eq!(DecPackedNode::from_bytes(&b[..51]), None);
    let d = DecPackedNode::from_bytes(&b).unwrap();
    assert!(!d.udp);
    let mut octets = [0u8; 16];
    for (i, o) in octets.iter_mut().enumerate() {
        *o = i as u8 + 1;
    }
    assert_eq!(d.addr, NodeAddress::V6(octets));
    assert_eq!(d.port, 80);
    assert_eq!(d.public_key, key(3));
}

#[test]
fn trailing_bytes_are_ignored() {
    let mut b = ipv4_record(0, 0);
    b.extend_from_slice(&[9, 9, 9]);
    assert!(DecPackedNode::from_bytes(&b).is_some());
}

#[test]
fn encode_ipv4_layout() {
    let d = DecPackedNode { udp: false, addr: NodeAddress::V4([10, 0, 0, 1]), port: 33445, public_key: key(0) };
    let b = d.to_bytes();
    assert_eq!(b.len(), 40);
    assert_eq!(&b[..8], &[1, 0, 10, 0, 0, 1, 0x82, 0xa5]);
    assert_eq!(&b[8..], &key(0));
}

#[test]
fn encode_ipv6_layout() {
    let d = DecPackedNode { udp: true, addr: NodeAddress::V6([0xfe; 16]), port: 1, public_key: key(5) };
    let b = d.to_bytes();
    assert_eq!(b.len(), 52);
    assert_eq!(&b[..2], &[0, 1]);
    assert_eq!(&b[2..18], &[0xfe; 16]);
    assert_eq!(&b[18..20], &[0, 1]);
    assert_eq!(&b[20..], &key(5));
}

#[test]
fn encode_then_decode_gives_value_back() {
    let values = [
        DecPackedNode { udp: true, addr: NodeAddress::V4([1, 2, 3, 4]), port: 0, public_key: key(1) },
        DecPackedNode { udp: false, addr: NodeAddress::V4([255; 4]), port: 65535, public_key: key(2) },
        DecPackedNode { udp: true, addr: NodeAddress::V6([7; 16]), port: 256, public_key: key(3) },
        DecPackedNode { udp: false, addr: NodeAddress::V6([0; 16]), port: 12345, public_key: key(4) },
    ];
    for v in values {
        assert_eq!(DecPackedNode::from_bytes(&v.to_bytes()), Some(v));
    }
}

#[test]
fn node_round_trip_through_deconstructed_form() {
    let nodes = [
        PackedNode { protocol: Protocol::Udp, addr: NodeAddress::V4([5, 6, 7, 8]), port: 12345, public_key: key(9) },
        PackedNode { protocol: Protocol::Tcp, addr: NodeAddress::V6([3; 16]), port: 443, public_key: key(10) },
    ];
    for p in nodes {
        let d = DecPackedNode::from_packed_node(&p);
        let back = DecPackedNode::from_bytes(&d.to_bytes()).unwrap();
        assert_eq!(back, d);
        assert_eq!(back.as_packed_node(), p);
    }
}

#[test]
fn transport_kind_maps_to_udp_flag() {
    let udp4 = PackedNode::new(true, NodeAddress::V4([1; 4]), 1, key(0));
    let tcp6 = PackedNode::new(false, NodeAddress::V6([1; 16]), 1, key(0));
    assert_eq!(udp4.transport_kind(), TransportKind::UdpV4);
    assert_eq!(tcp6.transport_kind(), TransportKind::TcpV6);
    assert!(DecPackedNode::from_packed_node(&udp4).udp);
    assert!(!DecPackedNode::from_packed_node(&tcp6).udp);
}
