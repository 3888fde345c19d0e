use wowint::codec::{decode_datagram, encode_datagram};
use wowint::target::WowIntegerTarget;

#[test]
fn round_trip_index_2_code_1104() {
    let bytes = encode_datagram(2, 1104);
    assert_eq!(bytes.len(), 8);
    let (index, code) = decode_datagram(&bytes);
    assert_eq!(index, 2);
    assert_eq!(code, 1104);
}

#[test]
fn exact_wire_bytes() {
    let bytes = encode_datagram(2, 1104);
    assert_eq!(bytes, vec![0x02, 0x00, 0x00, 0x00, 0x50, 0x04, 0x00, 0x00]);
}

#[test]
fn round_trip_zero() {
    let bytes = encode_datagram(0, 0);
    assert_eq!(bytes, vec![0u8; 8]);
    assert_eq!(decode_datagram(&bytes), (0, 0));
}

#[test]
fn round_trip_negative() {
    let bytes = encode_datagram(-1, -42);
    assert_eq!(&bytes[..4], &[0xFF, 0xFF, 0xFF, 0xFF]);
    assert_eq!(decode_datagram(&bytes), (-1, -42));
}

#[test]
fn round_trip_extremes() {
    let bytes = encode_datagram(i32::MIN, i32::MAX);
    assert_eq!(decode_datagram(&bytes), (i32::MIN, i32::MAX));
    let bytes = encode_datagram(i32::MAX, i32::MIN);
    assert_eq!(decode_datagram(&bytes), (i32::MAX, i32::MIN));
}

#[test]
fn matches_std_le_encoding() {
    let pairs = [
        (2, 1104),
        (0, 0),
        (-1, 1),
        (i32::MIN, i32::MAX),
        (7073, -7073),
    ];
    for (index, code) in pairs {
        let bytes = encode_datagram(index, code);
        assert_eq!(&bytes[..4], &index.to_le_bytes());
        assert_eq!(&bytes[4..], &code.to_le_bytes());
    }
}

#[test]
fn default_send_and_indexed_send_are_byte_identical() {
    let target = WowIntegerTarget::new("192.168.1.37", 7073, 2);
    let by_default = target.datagram_to_target(42);
    let by_index = target.datagram_to_target_at_index(2, 42);
    let to_all = target.datagram_to_all(42);
    assert_eq!(by_default, by_index);
    assert_eq!(by_default, to_all);
}

#[test]
fn target_stores_descriptor() {
    let target = WowIntegerTarget::new("example.invalid", 7073, 5);
    assert_eq!(target.ip, "example.invalid");
    assert_eq!(target.port, 7073);
    assert_eq!(target.index, 5);
}
