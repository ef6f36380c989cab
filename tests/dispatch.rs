use toxcore_adapter::dispatch::{bytes_equal, parse};
use toxcore_adapter::envelope::Failure;
use toxcore_adapter::handlers::LENGTH_ERROR;
use toxcore_adapter::node::{NodeAddress, PackedNode, Protocol};

fn request(name: &[u8], payload: &[u8]) -> Vec<u8> {
    let mut b = (name.len() as u64).to_be_bytes().to_vec();
    b.extend_from_slice(name);
    b.extend_from_slice(payload);
    b
}

fn key_ending(last: u8) -> [u8; 32] {
    let mut k = [0u8; 32];
    k[31] = last;
    k
}

#[test]
fn unknown_name_is_skipped() {
    assert_eq!(parse(&request(b"Foo", &[])), vec![0x02]);
    assert_eq!(parse(&request(b"Foo", &[1, 2, 3])), vec![0x02]);
    assert_eq!(parse(&request(b"testfailure", &[])), vec![0x02]);
    assert_eq!(parse(&request(b"", &[])), vec![0x02]);
}

#[test]
fn invalid_utf8_name_is_skipped() {
    assert_eq!(parse(&request(&[0xff, 0xfe, 0x80], &[])), vec![0x02]);
}

#[test]
fn unreadable_name_is_skipped() {
    assert_eq!(parse(&[]), vec![0x02]);
    assert_eq!(parse(&[0, 0, 0]), vec![0x02]);
    assert_eq!(parse(&[0, 0, 0, 0, 0, 0, 0, 20, b'T']), vec![0x02]);
    assert_eq!(parse(&[0xff; 16]), vec![0x02]);
}

#[test]
fn test_failure_case() {
    assert_eq!(parse(&request(b"TestFailure", &[])), vec![0, 0, 0, 0, 0, 0, 0, 0, 0]);
}

#[test]
fn test_success_case() {
    assert_eq!(parse(&request(b"TestSuccess", &[9, 9])), vec![0x01]);
}

#[test]
fn skipped_test_case() {
    assert_eq!(parse(&request(b"SkippedTest", &[])), vec![0x02]);
}

#[test]
fn distance_case_is_routed() {
    let mut payload = Vec::new();
    for k in [key_ending(0), key_ending(1), key_ending(2)] {
        payload.extend_from_slice(&k);
    }
    assert_eq!(parse(&request(b"Distance", &payload)), vec![1, 0]);
}

#[test]
fn nonce_case_is_routed() {
    let mut expected = vec![1u8];
    expected.extend_from_slice(&[0; 23]);
    expected.push(1);
    assert_eq!(parse(&request(b"NonceIncrement", &[0; 24])), expected);
}

#[test]
fn kbucket_case_is_routed() {
    let mut payload = key_ending(0).to_vec();
    payload.extend_from_slice(&key_ending(1));
    assert_eq!(parse(&request(b"KBucektIndex", &payload)), vec![1, 255]);
    assert_eq!(parse(&request(b"KBucketIndex", &payload)), vec![0x02]);
}

#[test]
fn node_info_case_is_routed() {
    let p = PackedNode { protocol: Protocol::Tcp, addr: NodeAddress::V4([9, 8, 7, 6]), port: 80, public_key: key_ending(7) };
    let wire = p.to_bytes();
    let mut payload = vec![0u8; 8];
    payload.extend_from_slice(&(wire.len() as u64).to_be_bytes());
    payload.extend_from_slice(&wire);
    let mut expected = vec![1u8];
    expected.extend_from_slice(&wire);
    assert_eq!(parse(&request(b"BinaryDecode NodeInfo", &payload)), expected);
    assert_eq!(
        parse(&request(b"BinaryDecode NodeInfo", &[0; 5])),
        Failure::from_str(LENGTH_ERROR).to_bytes()
    );
}

#[test]
fn byte_comparison() {
    assert!(bytes_equal(b"abc", b"abc"));
    assert!(!bytes_equal(b"abc", b"abd"));
    assert!(!bytes_equal(b"abc", b"ab"));
    assert!(bytes_equal(b"", b""));
}
