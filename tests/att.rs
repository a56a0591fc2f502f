use rumble_att::peripheral::{READ, WRITE};
use rumble_att::{
    characteristic, characteristics, notify_response, CharPropFlags, Characteristic,
    CharacteristicUUID, ErrorKind, IResult, NotifyResponse,
};

#[test]
fn test_characteristics() {
    let buf = [9, 7, 2, 0, 2, 3, 0, 0, 42, 4, 0, 2, 5, 0, 1, 42, 6, 0, 10, 7, 0, 2, 42];
    assert_eq!(
        characteristics(&buf),
        IResult::Done(
            &[][..],
            vec![
                Characteristic {
                    start_handle: 2,
                    value_handle: 3,
                    end_handle: 0xFFFF,
                    uuid: CharacteristicUUID::B16(0x2A00),
                    properties: CharPropFlags::from_bits_truncate(READ)
                },
                Characteristic {
                    start_handle: 4,
                    value_handle: 5,
                    end_handle: 0xFFFF,
                    uuid: CharacteristicUUID::B16(0x2A01),
                    properties: CharPropFlags::from_bits_truncate(READ)
                },
                Characteristic {
                    start_handle: 6,
                    value_handle: 7,
                    end_handle: 0xFFFF,
                    uuid: CharacteristicUUID::B16(0x2A02),
                    properties: CharPropFlags::from_bits_truncate(READ | WRITE)
                },
            ]
        )
    )
}

#[test]
fn b16_record_count_is_floor_of_remaining() {
    // 2 header bytes, then 20 bytes: two whole records and 6 bytes over
    let mut buf = vec![9u8, 7];
    for k in 0..20u8 {
        buf.push(k);
    }
    match characteristics(&buf) {
        IResult::Done(rest, v) => {
            assert_eq!(v.len(), 2);
            assert_eq!(rest, &buf[16..]);
            for c in &v {
                assert_eq!(c.end_handle, 0xFFFF);
                assert!(matches!(c.uuid, CharacteristicUUID::B16(_)));
            }
            assert_eq!(v[0].start_handle, 0x0100);
            assert_eq!(v[0].value_handle, 0x0403);
            assert_eq!(v[0].uuid, CharacteristicUUID::B16(0x0605));
            assert_eq!(v[1].start_handle, 0x0807);
        }
        other => panic!("unexpected {:?}", other),
    }
}

#[test]
fn b128_records_keep_wire_bytes() {
    let mut buf = vec![9u8, 21, 0x10, 0x00, 0x0A, 0x11, 0x00];
    let uuid: Vec<u8> = (0..16u8).map(|k| 0xA0 + k).collect();
    buf.extend_from_slice(&uuid);
    match characteristics(&buf) {
        IResult::Done(rest, v) => {
            assert!(rest.is_empty());
            assert_eq!(v.len(), 1);
            let mut expected = [0u8; 16];
            expected.copy_from_slice(&uuid);
            assert_eq!(
                v[0],
                Characteristic {
                    start_handle: 0x10,
                    value_handle: 0x11,
                    end_handle: 0xFFFF,
                    uuid: CharacteristicUUID::B128(expected),
                    properties: CharPropFlags::from_bits_truncate(READ | WRITE),
                }
            );
        }
        other => panic!("unexpected {:?}", other),
    }
}

#[test]
fn other_opcode_gives_nothing_and_consumes_all() {
    let buf = [0x01u8, 0x08, 0x02, 0x00, 0x0A];
    assert_eq!(characteristics(&buf), IResult::Done(&[][..], vec![]));
    assert_eq!(characteristics(&[0xFFu8]), IResult::Done(&[][..], vec![]));
}

#[test]
fn partial_trailing_record_is_left_over() {
    let buf = [9u8, 7, 2, 0, 2, 3, 0, 0, 42, 4, 0, 2];
    match characteristics(&buf) {
        IResult::Done(rest, v) => {
            assert_eq!(v.len(), 1);
            assert_eq!(rest, &[4u8, 0, 2][..]);
        }
        other => panic!("unexpected {:?}", other),
    }
    match characteristics(&[9u8, 21, 1, 2, 3]) {
        IResult::Done(rest, v) => {
            assert!(v.is_empty());
            assert_eq!(rest, &[1u8, 2, 3][..]);
        }
        other => panic!("unexpected {:?}", other),
    }
}

#[test]
fn unsupported_record_length_fails() {
    assert_eq!(
        characteristics(&[9u8, 8, 0, 0, 0, 0, 0, 0, 0, 0]),
        IResult::Error(ErrorKind::UnsupportedRecordLength)
    );
    assert_eq!(
        characteristics(&[9u8, 0]),
        IResult::Error(ErrorKind::UnsupportedRecordLength)
    );
}

#[test]
fn truncated_discovery_header_is_incomplete() {
    assert_eq!(characteristics(&[]), IResult::Incomplete(1));
    assert_eq!(characteristics(&[9u8]), IResult::Incomplete(2));
}

#[test]
fn decoding_twice_gives_the_same_result() {
    let buf = [9u8, 7, 2, 0, 2, 3, 0, 0, 42, 4, 0, 2, 5, 0, 1, 42, 9];
    assert_eq!(characteristics(&buf), characteristics(&buf));
    let n = [9u8, 1, 2, 3, 4, 5];
    assert_eq!(notify_response(&n), notify_response(&n));
}

#[test]
fn notify_response_fields() {
    let buf = [0x09u8, 0x07, 0x34, 0x12, 0xCD, 0xAB];
    assert_eq!(
        notify_response(&buf),
        IResult::Done(
            &[][..],
            NotifyResponse {
                typ: 7,
                handle: 0x1234,
                value: 0xABCD
            }
        )
    );
}

#[test]
fn notify_response_keeps_extra_bytes() {
    let buf = [0x09u8, 1, 2, 0, 3, 0, 0xEE];
    assert_eq!(
        notify_response(&buf),
        IResult::Done(
            &[0xEEu8][..],
            NotifyResponse {
                typ: 1,
                handle: 2,
                value: 3
            }
        )
    );
}

#[test]
fn notify_response_tag_mismatch() {
    assert_eq!(
        notify_response(&[0x08u8, 1, 2, 3, 4, 5]),
        IResult::Error(ErrorKind::Tag)
    );
    assert_eq!(notify_response(&[0x1Bu8]), IResult::Error(ErrorKind::Tag));
}

#[test]
fn notify_response_truncated() {
    assert_eq!(notify_response(&[]), IResult::Incomplete(1));
    assert_eq!(notify_response(&[9u8]), IResult::Incomplete(2));
    assert_eq!(notify_response(&[9u8, 1, 2]), IResult::Incomplete(4));
    assert_eq!(notify_response(&[9u8, 1, 2, 3, 4]), IResult::Incomplete(6));
}

#[test]
fn record_parser_reads_one_record() {
    let buf = [2u8, 0, 0x0A, 3, 0, 0x00, 0x2A, 0x99];
    match characteristic(&buf, true) {
        IResult::Done(rest, c) => {
            assert_eq!(rest, &[0x99u8][..]);
            assert_eq!(c.start_handle, 2);
            assert_eq!(c.value_handle, 3);
            assert_eq!(c.uuid, CharacteristicUUID::B16(0x2A00));
            assert_eq!(c.properties.bits(), READ | WRITE);
        }
        other => panic!("unexpected {:?}", other),
    }
    assert_eq!(characteristic(&buf[..1], true), IResult::Incomplete(2));
    assert_eq!(characteristic(&buf[..4], true), IResult::Incomplete(5));
    assert_eq!(characteristic(&buf, false), IResult::Incomplete(21));
}
