use toxcore_adapter::envelope::{Failure, Skipped, Success};

#[test]
fn failure_with_one_char_message() {
    let bytes = Failure::from_str("x").to_bytes();
    assert_eq!(bytes, vec![0x00, 0, 0, 0, 0, 0, 0, 0, 1, b'x']);
}

#[test]
fn failure_with_empty_message() {
    assert_eq!(Failure::new().to_bytes(), vec![0x00, 0, 0, 0, 0, 0, 0, 0, 0]);
}

#[test]
fn failure_length_is_utf8_bytes() {
    let bytes = Failure::from_str("é").to_bytes();
    assert_eq!(bytes, vec![0x00, 0, 0, 0, 0, 0, 0, 0, 2, 0xc3, 0xa9]);
}

#[test]
fn failure_long_message_length_field() {
    let msg = "a".repeat(300);
    let bytes = Failure::from_str(&msg).to_bytes();
    assert_eq!(&bytes[..9], &[0x00, 0, 0, 0, 0, 0, 0, 1, 44]);
    assert_eq!(bytes.len(), 309);
    assert_eq!(Failure::from_str(&msg).message(), msg.as_str());
}

#[test]
fn success_copies_payload_without_length() {
    let s = Success::new(&[7, 8, 9]);
    assert_eq!(s.payload(), &[7, 8, 9]);
    assert_eq!(s.to_bytes(), vec![0x01, 7, 8, 9]);
}

#[test]
fn success_with_empty_payload() {
    assert_eq!(Success::new(&[]).to_bytes(), vec![0x01]);
}

#[test]
fn skipped_is_one_byte() {
    assert_eq!(Skipped::new().to_bytes(), vec![0x02]);
}
