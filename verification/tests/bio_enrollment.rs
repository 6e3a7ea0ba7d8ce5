use ctap_hid_fido2::bio_enrollment_params::{BioEnrollmentData, TemplateInfo};
use ctap_hid_fido2::bio_enrollment_response::{from_cbor, parse_cbor};
use ctap_hid_fido2::cbor::CborValue;
use ctap_hid_fido2::error::DecodeError;
use serde_cbor::Value;
use std::collections::BTreeMap;

fn map_of(entries: Vec<(Value, Value)>) -> Value {
    let mut map = BTreeMap::new();
    for (k, v) in entries {
        map.insert(k, v);
    }
    Value::Map(map)
}

fn template(id: &[u8], name: &str) -> Value {
    map_of(vec![
        (Value::Integer(1), Value::Bytes(id.to_vec())),
        (Value::Integer(2), Value::Text(name.to_string())),
    ])
}

fn sensor_info() -> Vec<(Value, Value)> {
    vec![
        (Value::Integer(1), Value::Integer(1)),
        (Value::Integer(2), Value::Integer(2)),
        (Value::Integer(3), Value::Integer(5)),
        (Value::Integer(8), Value::Integer(32)),
    ]
}

#[test]
fn bio_sensor_info_is_decoded() {
    let bytes = serde_cbor::to_vec(&map_of(sensor_info())).unwrap();
    assert_eq!(
        parse_cbor(&bytes),
        Ok(BioEnrollmentData {
            modality: 1,
            fingerprint_kind: 2,
            max_capture_samples_required_for_enroll: 5,
            template_infos: vec![],
            max_template_friendly_name: 32,
        })
    );
}

#[test]
fn bio_templates_are_decoded_in_order() {
    let bytes = serde_cbor::to_vec(&map_of(vec![(
        Value::Integer(7),
        Value::Array(vec![template(&[1, 2], "left"), template(&[3], "right")]),
    )]))
    .unwrap();
    let data = parse_cbor(&bytes).unwrap();
    assert_eq!(
        data.template_infos,
        vec![
            TemplateInfo { template_id: vec![1, 2], template_friendly_name: "left".to_string() },
            TemplateInfo { template_id: vec![3], template_friendly_name: "right".to_string() },
        ]
    );
    assert_eq!(data.modality, 0);
    assert_eq!(data.max_template_friendly_name, 0);
}

#[test]
fn bio_template_without_name_keeps_the_default() {
    let bytes = serde_cbor::to_vec(&map_of(vec![(
        Value::Integer(7),
        Value::Array(vec![map_of(vec![(Value::Integer(1), Value::Bytes(vec![9]))])]),
    )]))
    .unwrap();
    assert_eq!(
        parse_cbor(&bytes).unwrap().template_infos,
        vec![TemplateInfo { template_id: vec![9], template_friendly_name: String::new() }]
    );
}

#[test]
fn bio_empty_map_gives_the_defaults() {
    assert_eq!(parse_cbor(&[0xa0]), Ok(BioEnrollmentData::default()));
    assert_eq!(
        BioEnrollmentData::default(),
        BioEnrollmentData {
            modality: 0,
            fingerprint_kind: 0,
            max_capture_samples_required_for_enroll: 0,
            template_infos: vec![],
            max_template_friendly_name: 0,
        }
    );
}

#[test]
fn bio_unknown_keys_are_ignored() {
    let plain = parse_cbor(&serde_cbor::to_vec(&map_of(sensor_info())).unwrap()).unwrap();
    let extras = vec![
        (Value::Integer(0), Value::Text("zero".to_string())),
        (Value::Integer(4), Value::Bytes(vec![1])),
        (Value::Integer(99), map_of(vec![])),
        (Value::Integer(-1), Value::Bool(true)),
        (Value::Text("1".to_string()), Value::Text("not a number".to_string())),
        (Value::Bytes(vec![1]), Value::Null),
    ];
    for extra in extras {
        let mut entries = sensor_info();
        entries.push(extra);
        let bytes = serde_cbor::to_vec(&map_of(entries)).unwrap();
        assert_eq!(parse_cbor(&bytes), Ok(plain.clone()));
    }
}

#[test]
fn bio_unknown_key_is_ignored_wherever_it_stands() {
    let known = |n: i128| (CborValue::Integer(n), CborValue::Integer(n + 10));
    let extra = || (CborValue::Integer(50), CborValue::Text("new".to_string()));
    let plain = from_cbor(&CborValue::Dict(vec![known(1), known(2), known(3)])).unwrap();
    assert_eq!(plain.modality, 11);
    assert_eq!(plain.fingerprint_kind, 12);
    assert_eq!(plain.max_capture_samples_required_for_enroll, 13);
    let first = CborValue::Dict(vec![extra(), known(1), known(2), known(3)]);
    let middle = CborValue::Dict(vec![known(1), extra(), known(2), known(3)]);
    let last = CborValue::Dict(vec![known(1), known(2), known(3), extra()]);
    assert_eq!(from_cbor(&first), Ok(plain.clone()));
    assert_eq!(from_cbor(&middle), Ok(plain.clone()));
    assert_eq!(from_cbor(&last), Ok(plain));
}

#[test]
fn bio_type_mismatch_is_an_error() {
    let cases = vec![
        (Value::Integer(1), Value::Text("one".to_string())),
        (Value::Integer(2), Value::Integer(-1)),
        (Value::Integer(3), Value::Integer(4294967296)),
        (Value::Integer(8), Value::Bool(true)),
        (Value::Integer(7), Value::Integer(1)),
        (Value::Integer(7), Value::Array(vec![Value::Integer(1)])),
        (
            Value::Integer(7),
            Value::Array(vec![map_of(vec![(Value::Integer(1), Value::Text("id".to_string()))])]),
        ),
        (
            Value::Integer(7),
            Value::Array(vec![
                template(&[1], "ok"),
                map_of(vec![(Value::Integer(2), Value::Bytes(vec![1]))]),
            ]),
        ),
    ];
    for case in cases {
        let bytes = serde_cbor::to_vec(&map_of(vec![case])).unwrap();
        assert_eq!(parse_cbor(&bytes), Err(DecodeError::TypeMismatch));
    }
}

#[test]
fn bio_response_must_be_a_cbor_map() {
    assert_eq!(parse_cbor(&[0x01]), Err(DecodeError::NotAMap));
    assert_eq!(parse_cbor(&[0x80]), Err(DecodeError::NotAMap));
    assert_eq!(parse_cbor(&[]), Err(DecodeError::InvalidCbor));
    assert_eq!(parse_cbor(&[0xa1, 0x01]), Err(DecodeError::InvalidCbor));
}

#[test]
fn bio_last_entry_of_a_repeated_key_counts() {
    let item = CborValue::Dict(vec![
        (CborValue::Integer(1), CborValue::Integer(5)),
        (CborValue::Integer(1), CborValue::Integer(6)),
    ]);
    assert_eq!(from_cbor(&item).unwrap().modality, 6);
}

#[test]
fn bio_order_of_entries_does_not_matter() {
    let entry = |k: i128, v: i128| (CborValue::Integer(k), CborValue::Integer(v));
    let expected = from_cbor(&CborValue::Dict(vec![entry(1, 4), entry(2, 5), entry(3, 6), entry(8, 7)]));
    assert_eq!(expected.as_ref().unwrap().fingerprint_kind, 5);
    for order in [[8, 3, 2, 1], [2, 1, 8, 3], [3, 8, 1, 2], [1, 3, 2, 8]] {
        let entries = order.iter().map(|k| entry(*k, if *k == 8 { 7 } else { *k + 3 })).collect();
        assert_eq!(from_cbor(&CborValue::Dict(entries)), expected);
    }
}
