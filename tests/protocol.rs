use matiaos::protocol::{count_triggers, decode_size, encode_size, is_ack};

#[test]
fn size_decodes_little_endian() {
    assert_eq!(decode_size(&[0x01, 0x00, 0x00, 0x00]), 1);
    assert_eq!(decode_size(&[0x00, 0x01, 0x00, 0x00]), 256);
    assert_eq!(decode_size(&[0x00, 0x00, 0x01, 0x00]), 65536);
    assert_eq!(decode_size(&[0x78, 0x56, 0x34, 0x12]), 0x1234_5678);
    assert_eq!(decode_size(&[0xff, 0xff, 0xff, 0xff]), u32::MAX);
}

#[test]
fn size_encodes_little_endian() {
    assert_eq!(encode_size(1), [0x01, 0x00, 0x00, 0x00]);
    assert_eq!(encode_size(256), [0x00, 0x01, 0x00, 0x00]);
    assert_eq!(encode_size(0x1234_5678), [0x78, 0x56, 0x34, 0x12]);
    assert_eq!(encode_size(0), [0, 0, 0, 0]);
}

#[test]
fn size_round_trips() {
    for n in [0u32, 1, 255, 256, 65535, 65536, 0xdead_beef, u32::MAX] {
        assert_eq!(decode_size(&encode_size(n)), n);
    }
}

#[test]
fn ack_accepts_only_ok() {
    assert!(is_ack(b"OK"));
    assert!(!is_ack(b"KO"));
    assert!(!is_ack(b"Ok"));
    assert!(!is_ack(b"O"));
    assert!(!is_ack(b"OKK"));
    assert!(!is_ack(b""));
    assert!(!is_ack(&[0, 0]));
}

#[test]
fn triggers_are_counted() {
    assert_eq!(count_triggers(&[]), 0);
    assert_eq!(count_triggers(&[3, 3, 3]), 3);
    assert_eq!(count_triggers(b"abc\x03def\x03"), 2);
    assert_eq!(count_triggers(b"no trigger"), 0);
}
