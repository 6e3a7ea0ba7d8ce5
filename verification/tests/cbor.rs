use ctap_hid_fido2::cbor::{decode, decode_sequence, encode, is_writable, CborValue};
use ctap_hid_fido2::error::DecodeError;

#[test]
fn decode_reads_scalars() {
    assert_eq!(decode(&[0x00]), Ok(CborValue::Integer(0)));
    assert_eq!(decode(&[0x17]), Ok(CborValue::Integer(23)));
    assert_eq!(decode(&[0x18, 0x64]), Ok(CborValue::Integer(100)));
    assert_eq!(decode(&[0x26]), Ok(CborValue::Integer(-7)));
    assert_eq!(decode(&[0x38, 0x18]), Ok(CborValue::Integer(-25)));
    assert_eq!(
        decode(&[0x1b, 0xff, 0xff, 0xff, 0xff, 0xff, 0xff, 0xff, 0xff]),
        Ok(CborValue::Integer(18446744073709551615))
    );
    assert_eq!(decode(&[0xf5]), Ok(CborValue::Bool(true)));
    assert_eq!(decode(&[0xf4]), Ok(CborValue::Bool(false)));
    assert_eq!(decode(&[0xf6]), Ok(CborValue::Null));
    assert_eq!(decode(&[0x43, 1, 2, 3]), Ok(CborValue::Bytes(vec![1, 2, 3])));
    assert_eq!(
        decode(&[0x62, 0x69, 0x64]),
        Ok(CborValue::Text("id".to_string()))
    );
}

#[test]
fn decode_reads_nested_items() {
    let bytes = [0xa2, 0x01, 0x82, 0x02, 0x03, 0x61, 0x61, 0xa1, 0x04, 0xf5];
    assert_eq!(
        decode(&bytes),
        Ok(CborValue::Dict(vec![
            (
                CborValue::Integer(1),
                CborValue::Array(vec![CborValue::Integer(2), CborValue::Integer(3)])
            ),
            (
                CborValue::Text("a".to_string()),
                CborValue::Dict(vec![(CborValue::Integer(4), CborValue::Bool(true))])
            ),
        ]))
    );
}

#[test]
fn decode_drops_a_tag_and_keeps_the_tagged_item() {
    assert_eq!(decode(&[0xc1, 0x01]), Ok(CborValue::Integer(1)));
    assert_eq!(decode(&[0xc0, 0x61, 0x61]), Ok(CborValue::Text("a".to_string())));
    assert_eq!(
        decode(&[0xd8, 0x20, 0x82, 0xc2, 0x41, 0x01, 0xf5]),
        Ok(CborValue::Array(vec![CborValue::Bytes(vec![1]), CborValue::Bool(true)]))
    );
    assert_eq!(decode(&[0xc1]), Err(DecodeError::InvalidCbor));
}

#[test]
fn encode_refuses_integer_keys_that_cbor_cannot_write() {
    let with_keys = |a: i128, b: i128| {
        CborValue::Dict(vec![
            (CborValue::Integer(a), CborValue::Null),
            (CborValue::Integer(b), CborValue::Null),
        ])
    };
    for map in [
        with_keys(i128::MIN, -1),
        with_keys(-1, i128::MIN),
        with_keys(i128::MIN, i128::MIN),
        with_keys(i128::MAX, 1),
        with_keys(1 << 64, 1),
        with_keys(-(1 << 64) - 1, -1),
    ] {
        assert!(!is_writable(&map));
        assert_eq!(encode(&map), None);
        assert_eq!(encode(&CborValue::Array(vec![map])), None);
    }
    let widest = with_keys(-(1 << 64), (1 << 64) - 1);
    assert!(is_writable(&widest));
    assert_eq!(
        encode(&widest),
        Some(vec![
            0xa2, 0x1b, 0xff, 0xff, 0xff, 0xff, 0xff, 0xff, 0xff, 0xff, 0xf6, 0x3b, 0xff, 0xff,
            0xff, 0xff, 0xff, 0xff, 0xff, 0xff, 0xf6
        ])
    );
    assert!(is_writable(&CborValue::Integer(i128::MIN)));
    assert_eq!(encode(&CborValue::Integer(i128::MIN)), None);
    assert_eq!(encode(&CborValue::Array(vec![CborValue::Integer(i128::MAX)])), None);
}

#[test]
fn decode_keeps_floats_as_other() {
    assert_eq!(decode(&[0xf9, 0x3c, 0x00]), Ok(CborValue::Other));
    assert_eq!(
        decode(&[0x82, 0x01, 0xfb, 0x3f, 0xf0, 0, 0, 0, 0, 0, 0]),
        Ok(CborValue::Array(vec![CborValue::Integer(1), CborValue::Other]))
    );
}

#[test]
fn decode_lists_map_entries_in_the_order_of_the_keys() {
    let bytes = [0xa3, 0x03, 0x0a, 0x01, 0x0b, 0x02, 0x0c];
    assert_eq!(
        decode(&bytes),
        Ok(CborValue::Dict(vec![
            (CborValue::Integer(1), CborValue::Integer(11)),
            (CborValue::Integer(2), CborValue::Integer(12)),
            (CborValue::Integer(3), CborValue::Integer(10)),
        ]))
    );
}

#[test]
fn decode_refuses_malformed_bytes() {
    assert_eq!(decode(&[]), Err(DecodeError::InvalidCbor));
    assert_eq!(decode(&[0xa1, 0x01]), Err(DecodeError::InvalidCbor));
    assert_eq!(decode(&[0x43, 1, 2]), Err(DecodeError::InvalidCbor));
    assert_eq!(decode(&[0x01, 0x02]), Err(DecodeError::InvalidCbor));
    assert_eq!(decode(&[0xff]), Err(DecodeError::InvalidCbor));
}

#[test]
fn decode_sequence_reads_item_after_item() {
    assert_eq!(decode_sequence(&[]), Ok(vec![]));
    assert_eq!(
        decode_sequence(&[0x01, 0x41, 0x09, 0xa0]),
        Ok(vec![
            CborValue::Integer(1),
            CborValue::Bytes(vec![9]),
            CborValue::Dict(vec![]),
        ])
    );
    assert_eq!(
        decode_sequence(&[0x01, 0x43, 0x09]),
        Err(DecodeError::InvalidCbor)
    );
}

#[test]
fn encode_writes_the_shortest_form() {
    assert_eq!(encode(&CborValue::Integer(0)), Some(vec![0x00]));
    assert_eq!(encode(&CborValue::Integer(24)), Some(vec![0x18, 0x18]));
    assert_eq!(encode(&CborValue::Integer(-7)), Some(vec![0x26]));
    assert_eq!(encode(&CborValue::Bool(true)), Some(vec![0xf5]));
    assert_eq!(encode(&CborValue::Null), Some(vec![0xf6]));
    assert_eq!(
        encode(&CborValue::Bytes(vec![0xde, 0xad])),
        Some(vec![0x42, 0xde, 0xad])
    );
    assert_eq!(
        encode(&CborValue::Text("rk".to_string())),
        Some(vec![0x62, 0x72, 0x6b])
    );
    assert_eq!(
        encode(&CborValue::Array(vec![
            CborValue::Integer(1),
            CborValue::Array(vec![])
        ])),
        Some(vec![0x82, 0x01, 0x80])
    );
}

#[test]
fn encode_orders_map_keys() {
    let map = CborValue::Dict(vec![
        (CborValue::Text("b".to_string()), CborValue::Integer(1)),
        (CborValue::Integer(2), CborValue::Integer(2)),
        (CborValue::Integer(1), CborValue::Integer(3)),
        (CborValue::Integer(-1), CborValue::Integer(4)),
    ]);
    assert_eq!(
        encode(&map),
        Some(vec![0xa4, 0x01, 0x03, 0x02, 0x02, 0x20, 0x04, 0x61, 0x62, 0x01])
    );
}

#[test]
fn encode_refuses_integers_that_cbor_cannot_write() {
    assert_eq!(encode(&CborValue::Integer(18446744073709551616)), None);
    assert_eq!(encode(&CborValue::Integer(-18446744073709551617)), None);
    assert_eq!(
        encode(&CborValue::Integer(-18446744073709551616)),
        Some(vec![0x3b, 0xff, 0xff, 0xff, 0xff, 0xff, 0xff, 0xff, 0xff])
    );
}

#[test]
fn encode_refuses_what_has_no_counterpart() {
    assert_eq!(encode(&CborValue::Other), None);
    assert_eq!(encode(&CborValue::Array(vec![CborValue::Integer(1), CborValue::Other])), None);
    assert_eq!(
        encode(&CborValue::Dict(vec![(CborValue::Integer(1), CborValue::Other)])),
        None
    );
    assert_eq!(
        encode(&CborValue::Dict(vec![(CborValue::Other, CborValue::Integer(1))])),
        None
    );
    assert!(!is_writable(&CborValue::Other));
}

#[test]
fn encode_refuses_arrays_and_maps_as_keys() {
    let big = || CborValue::Array(vec![CborValue::Integer(1 << 70)]);
    let map = CborValue::Dict(vec![
        (big(), CborValue::Integer(1)),
        (big(), CborValue::Integer(2)),
    ]);
    assert!(!is_writable(&map));
    assert_eq!(encode(&map), None);
    let nested = CborValue::Array(vec![CborValue::Dict(vec![(
        CborValue::Integer(1),
        CborValue::Dict(vec![(CborValue::Dict(vec![]), CborValue::Null)]),
    )])]);
    assert!(!is_writable(&nested));
    assert_eq!(encode(&nested), None);
    let fine = CborValue::Array(vec![CborValue::Dict(vec![
        (CborValue::Integer(1), CborValue::Array(vec![CborValue::Dict(vec![])])),
        (CborValue::Text("a".to_string()), CborValue::Null),
        (CborValue::Bytes(vec![1]), CborValue::Bool(true)),
        (CborValue::Bool(false), CborValue::Integer(-1)),
        (CborValue::Null, CborValue::Integer(0)),
    ])]);
    assert!(is_writable(&fine));
    assert_eq!(
        encode(&fine),
        Some(vec![
            0x81, 0xa5, 0x01, 0x81, 0xa0, 0x41, 0x01, 0xf5, 0x61, 0x61, 0xf6, 0xf4, 0x20, 0xf6,
            0x00
        ])
    );
}

#[test]
fn encode_then_decode_gives_the_item_back() {
    let item = CborValue::Dict(vec![
        (CborValue::Integer(1), CborValue::Bytes(vec![1, 2, 3])),
        (
            CborValue::Integer(2),
            CborValue::Dict(vec![
                (CborValue::Text("id".to_string()), CborValue::Text("x.org".to_string())),
                (CborValue::Text("name".to_string()), CborValue::Text("x".to_string())),
            ]),
        ),
        (CborValue::Integer(3), CborValue::Array(vec![CborValue::Bool(false)])),
    ]);
    let bytes = encode(&item).unwrap();
    assert_eq!(decode(&bytes), Ok(item));
}

#[test]
fn accessors_tell_the_kinds_apart() {
    assert_eq!(CborValue::Integer(7).to_u32(), Some(7));
    assert_eq!(CborValue::Integer(4294967295).to_u32(), Some(4294967295));
    assert_eq!(CborValue::Integer(4294967296).to_u32(), None);
    assert_eq!(CborValue::Integer(-1).to_u32(), None);
    assert_eq!(CborValue::Integer(-7).to_i32(), Some(-7));
    assert_eq!(CborValue::Integer(2147483647).to_i32(), Some(2147483647));
    assert_eq!(CborValue::Integer(2147483648).to_i32(), None);
    assert_eq!(CborValue::Integer(-2147483648).to_i32(), Some(-2147483648));
    assert_eq!(CborValue::Integer(-2147483649).to_i32(), None);
    assert_eq!(CborValue::Bool(true).to_u32(), None);
    assert_eq!(CborValue::Bool(true).to_bool(), Some(true));
    assert_eq!(CborValue::Integer(1).to_bool(), None);
    assert_eq!(CborValue::Bytes(vec![1]).to_bytes(), Some(vec![1]));
    assert_eq!(CborValue::Text("a".to_string()).to_bytes(), None);
    assert_eq!(CborValue::Text("a".to_string()).to_text(), Some("a".to_string()));
    assert_eq!(CborValue::Bytes(vec![1]).to_text(), None);
    assert_eq!(CborValue::Array(vec![]).items(), Some(&vec![]));
    assert_eq!(CborValue::Dict(vec![]).items(), None);
    assert_eq!(CborValue::Dict(vec![]).entries(), Some(&vec![]));
    assert_eq!(CborValue::Array(vec![]).entries(), None);
}
