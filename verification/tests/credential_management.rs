use ctap_hid_fido2::cbor::CborValue;
use ctap_hid_fido2::credential_management_params::{
    Credential, CredentialManagementData, CredentialsCount, Rp,
};
use ctap_hid_fido2::credential_management_response::{from_cbor, parse_cbor};
use ctap_hid_fido2::enumerate::{
    into_credentials, into_rps, EnumAction, EnumKind, Enumeration,
};
use ctap_hid_fido2::error::{CtapError, DecodeError};
use ctap_hid_fido2::public_key::{PublicKey, PublicKeyType};
use ctap_hid_fido2::request::CredentialManagementSubCommand;
use ctap_hid_fido2::public_key_credential_descriptor::PublicKeyCredentialDescriptor;
use ctap_hid_fido2::public_key_credential_rp_entity::PublicKeyCredentialRpEntity;
use ctap_hid_fido2::public_key_credential_user_entity::PublicKeyCredentialUserEntity;
use serde_cbor::Value;
use std::collections::BTreeMap;

fn map_of(entries: Vec<(Value, Value)>) -> Value {
    let mut map = BTreeMap::new();
    for (k, v) in entries {
        map.insert(k, v);
    }
    Value::Map(map)
}

fn text(t: &str) -> Value {
    Value::Text(t.to_string())
}

fn rp_data(id: &str, total: u32) -> CredentialManagementData {
    CredentialManagementData {
        public_key_credential_rp_entity: PublicKeyCredentialRpEntity {
            id: id.to_string(),
            name: String::new(),
        },
        rpid_hash: id.as_bytes().to_vec(),
        total_rps: total,
        ..CredentialManagementData::default()
    }
}

fn credential_data(tag: &str, total: u32) -> CredentialManagementData {
    CredentialManagementData {
        public_key_credential_user_entity: PublicKeyCredentialUserEntity {
            id: tag.as_bytes().to_vec(),
            name: format!("note of {}", tag),
            display_name: String::new(),
        },
        public_key_credential_descriptor: PublicKeyCredentialDescriptor {
            id: vec![tag.len() as u8],
            ctype: "public-key".to_string(),
        },
        total_credentials: total,
        cred_protect: 1,
        ..CredentialManagementData::default()
    }
}

#[test]
fn credentials_metadata_is_decoded() {
    let bytes = serde_cbor::to_vec(&map_of(vec![
        (Value::Integer(1), Value::Integer(3)),
        (Value::Integer(2), Value::Integer(22)),
    ]))
    .unwrap();
    let data = parse_cbor(&bytes).unwrap();
    assert_eq!(
        CredentialsCount::new(&data),
        CredentialsCount {
            existing_resident_credentials_count: 3,
            max_possible_remaining_resident_credentials_count: 22,
        }
    );
}

#[test]
fn rp_response_is_decoded() {
    let bytes = serde_cbor::to_vec(&map_of(vec![
        (
            Value::Integer(3),
            map_of(vec![(text("id"), text("ctapcli")), (text("name"), text("notes"))]),
        ),
        (Value::Integer(4), Value::Bytes(vec![0xab; 32])),
        (Value::Integer(5), Value::Integer(2)),
    ]))
    .unwrap();
    let data = parse_cbor(&bytes).unwrap();
    assert_eq!(data.total_rps, 2);
    assert_eq!(
        Rp::new(data),
        Rp {
            public_key_credential_rp_entity: PublicKeyCredentialRpEntity {
                id: "ctapcli".to_string(),
                name: "notes".to_string(),
            },
            rpid_hash: vec![0xab; 32],
        }
    );
}

#[test]
fn credential_response_is_decoded() {
    let bytes = serde_cbor::to_vec(&map_of(vec![
        (
            Value::Integer(6),
            map_of(vec![
                (text("id"), Value::Bytes(b"alice".to_vec())),
                (text("name"), text("secret-note")),
            ]),
        ),
        (
            Value::Integer(7),
            map_of(vec![(text("id"), Value::Bytes(vec![5; 16])), (text("type"), text("public-key"))]),
        ),
        (
            Value::Integer(8),
            map_of(vec![
                (Value::Integer(1), Value::Integer(2)),
                (Value::Integer(3), Value::Integer(-7)),
                (Value::Integer(-1), Value::Integer(1)),
                (Value::Integer(-2), Value::Bytes(vec![1; 32])),
                (Value::Integer(-3), Value::Bytes(vec![2; 32])),
            ]),
        ),
        (Value::Integer(9), Value::Integer(4)),
        (Value::Integer(10), Value::Integer(3)),
        (Value::Integer(11), Value::Bytes(vec![0; 32])),
    ]))
    .unwrap();
    let data = parse_cbor(&bytes).unwrap();
    assert_eq!(data.total_credentials, 4);
    let mut der = vec![4u8];
    der.extend_from_slice(&[1; 32]);
    der.extend_from_slice(&[2; 32]);
    assert_eq!(
        Credential::new(data),
        Credential {
            public_key_credential_user_entity: PublicKeyCredentialUserEntity {
                id: b"alice".to_vec(),
                name: "secret-note".to_string(),
                display_name: String::new(),
            },
            public_key_credential_descriptor: PublicKeyCredentialDescriptor {
                id: vec![5; 16],
                ctype: "public-key".to_string(),
            },
            public_key: PublicKey { key_type: PublicKeyType::Ecdsa256, der },
            cred_protect: 3,
        }
    );
}

#[test]
fn response_without_bytes_is_the_empty_record() {
    assert_eq!(parse_cbor(&[]), Ok(CredentialManagementData::default()));
    assert_eq!(parse_cbor(&[0xa0]), Ok(CredentialManagementData::default()));
}

#[test]
fn credential_management_errors() {
    for case in [
        (Value::Integer(1), text("3")),
        (Value::Integer(2), Value::Integer(-1)),
        (Value::Integer(3), text("ctapcli")),
        (Value::Integer(3), map_of(vec![(text("id"), Value::Bytes(vec![1]))])),
        (Value::Integer(4), text("hash")),
        (Value::Integer(5), Value::Bool(true)),
        (Value::Integer(6), Value::Bytes(vec![1])),
        (Value::Integer(6), map_of(vec![(text("name"), Value::Integer(1))])),
        (Value::Integer(6), map_of(vec![(text("displayName"), Value::Integer(1))])),
        (Value::Integer(7), map_of(vec![(text("type"), Value::Integer(1))])),
        (Value::Integer(7), map_of(vec![(text("id"), text("x"))])),
        (Value::Integer(8), Value::Integer(1)),
        (Value::Integer(9), Value::Integer(4294967296)),
        (Value::Integer(10), Value::Array(vec![])),
    ] {
        let bytes = serde_cbor::to_vec(&map_of(vec![case])).unwrap();
        assert_eq!(parse_cbor(&bytes), Err(DecodeError::TypeMismatch));
    }
    assert_eq!(parse_cbor(&[0x01]), Err(DecodeError::NotAMap));
    assert_eq!(parse_cbor(&[0xbf]), Err(DecodeError::InvalidCbor));
}

#[test]
fn credential_management_unknown_keys_are_ignored() {
    let known = |k: i128, v: i128| (CborValue::Integer(k), CborValue::Integer(v));
    let plain = from_cbor(&CborValue::Dict(vec![known(1, 5), known(9, 6)])).unwrap();
    assert_eq!(plain.existing_resident_credentials_count, 5);
    assert_eq!(plain.total_credentials, 6);
    let more = CborValue::Dict(vec![
        (CborValue::Integer(12), CborValue::Text("new".to_string())),
        known(1, 5),
        (CborValue::Integer(0), CborValue::Null),
        known(9, 6),
        (CborValue::Text("x".to_string()), CborValue::Integer(1)),
    ]);
    assert_eq!(from_cbor(&more), Ok(plain));
}

#[test]
fn nested_maps_ignore_unknown_names() {
    let rp = PublicKeyCredentialRpEntity::from_cbor(&CborValue::Dict(vec![
        (CborValue::Text("icon".to_string()), CborValue::Integer(1)),
        (CborValue::Text("id".to_string()), CborValue::Text("example.org".to_string())),
        (CborValue::Integer(1), CborValue::Integer(1)),
    ]));
    assert_eq!(
        rp,
        Some(PublicKeyCredentialRpEntity { id: "example.org".to_string(), name: String::new() })
    );
    let user = PublicKeyCredentialUserEntity::from_cbor(&CborValue::Dict(vec![
        (CborValue::Text("icon".to_string()), CborValue::Integer(1)),
        (CborValue::Text("displayName".to_string()), CborValue::Text("A".to_string())),
    ]));
    assert_eq!(
        user,
        Some(PublicKeyCredentialUserEntity {
            id: vec![],
            name: String::new(),
            display_name: "A".to_string()
        })
    );
    let descriptor = PublicKeyCredentialDescriptor::from_cbor(&CborValue::Dict(vec![
        (CborValue::Text("transports".to_string()), CborValue::Array(vec![])),
        (CborValue::Text("id".to_string()), CborValue::Bytes(vec![1])),
    ]));
    assert_eq!(
        descriptor,
        Some(PublicKeyCredentialDescriptor { id: vec![1], ctype: String::new() })
    );
}

#[test]
fn user_entity_from_parts() {
    assert_eq!(
        PublicKeyCredentialUserEntity::new(Some(b"alice"), Some("secret-note"), None),
        PublicKeyCredentialUserEntity {
            id: b"alice".to_vec(),
            name: "secret-note".to_string(),
            display_name: String::new(),
        }
    );
    assert_eq!(
        PublicKeyCredentialUserEntity::new(None, None, Some("A")),
        PublicKeyCredentialUserEntity { id: vec![], name: String::new(), display_name: "A".to_string() }
    );
}

#[test]
fn enumeration_collects_as_many_entries_as_announced() {
    let mut state = Enumeration::new(EnumKind::Rps);
    assert_eq!(state.action(), EnumAction::Begin);
    state = state.on_response(rp_data("a.org", 3));
    assert_eq!(state.action(), EnumAction::Next);
    state = state.on_response(rp_data("b.org", 0));
    assert_eq!(state.action(), EnumAction::Next);
    assert!(matches!(state, Enumeration::InProgress { remaining: 1, .. }));
    state = state.on_response(rp_data("c.org", 0));
    assert_eq!(state.action(), EnumAction::Finish);
    let list = state.finish().unwrap().unwrap();
    assert_eq!(list, vec![rp_data("a.org", 3), rp_data("b.org", 0), rp_data("c.org", 0)]);
    let rps = into_rps(list);
    assert_eq!(
        rps.iter().map(|r| r.public_key_credential_rp_entity.id.as_str()).collect::<Vec<_>>(),
        vec!["a.org", "b.org", "c.org"]
    );
    assert_eq!(rps[1].rpid_hash, b"b.org".to_vec());
}

#[test]
fn enumeration_of_one_entry_needs_no_next() {
    let state = Enumeration::new(EnumKind::Credentials).on_response(credential_data("alice", 1));
    assert_eq!(state.action(), EnumAction::Finish);
    let credentials = into_credentials(state.finish().unwrap().unwrap());
    assert_eq!(credentials.len(), 1);
    assert_eq!(credentials[0].public_key_credential_user_entity.id, b"alice".to_vec());
    assert_eq!(credentials[0].public_key_credential_user_entity.name, "note of alice");
    assert_eq!(credentials[0].cred_protect, 1);
}

#[test]
fn enumeration_of_nothing_is_empty() {
    let state = Enumeration::new(EnumKind::Rps).on_response(rp_data("", 0));
    assert_eq!(state.action(), EnumAction::Finish);
    assert_eq!(state.finish(), Some(Ok(vec![])));
    assert_eq!(into_rps(vec![]), vec![]);
    assert_eq!(into_credentials(vec![]), vec![]);
}

#[test]
fn enumeration_reads_the_total_that_fits_its_kind() {
    let mut data = rp_data("a.org", 2);
    data.total_credentials = 1;
    let rps = Enumeration::new(EnumKind::Rps).on_response(data.clone());
    assert_eq!(rps.action(), EnumAction::Next);
    let credentials = Enumeration::new(EnumKind::Credentials).on_response(data);
    assert_eq!(credentials.action(), EnumAction::Finish);
}

#[test]
fn enumeration_is_not_handed_out_before_it_is_whole() {
    let state = Enumeration::new(EnumKind::Rps);
    assert_eq!(state.clone().finish(), None);
    let state = state.on_response(rp_data("a.org", 2));
    assert_eq!(state.finish(), None);
}

#[test]
fn enumeration_fails_as_a_whole() {
    let state = Enumeration::new(EnumKind::Rps)
        .on_response(rp_data("a.org", 3))
        .on_error(CtapError::Protocol(0x2e));
    assert_eq!(state.action(), EnumAction::Finish);
    assert_eq!(state, Enumeration::Failed(CtapError::Protocol(0x2e)));
    let state = state.on_response(rp_data("b.org", 0)).on_error(CtapError::Transport);
    assert_eq!(state.finish(), Some(Err(CtapError::Protocol(0x2e))));
    let begin = Enumeration::new(EnumKind::Rps).on_error(CtapError::Transport);
    assert_eq!(begin.finish(), Some(Err(CtapError::Transport)));
    let begin = Enumeration::new(EnumKind::Rps).on_error(CtapError::Protocol(0x2d));
    assert_eq!(begin.finish(), Some(Err(CtapError::Protocol(0x2d))));
}

#[test]
fn enumeration_refused_for_want_of_credentials_is_empty() {
    let begin = Enumeration::new(EnumKind::Rps).on_error(CtapError::Protocol(0x2e));
    assert_eq!(begin.action(), EnumAction::Finish);
    assert_eq!(begin.finish(), Some(Ok(vec![])));
    let begin = Enumeration::new(EnumKind::Credentials).on_error(CtapError::Protocol(0x2e));
    assert_eq!(begin.finish(), Some(Ok(vec![])));
}

#[test]
fn enumeration_that_is_over_stays_as_it_is() {
    let state = Enumeration::new(EnumKind::Rps)
        .on_response(rp_data("a.org", 1))
        .on_response(rp_data("b.org", 5))
        .on_error(CtapError::Transport);
    assert_eq!(state.finish(), Some(Ok(vec![rp_data("a.org", 1)])));
}

#[test]
fn enumeration_actions_have_their_subcommands() {
    assert_eq!(
        EnumKind::Rps.request(EnumAction::Begin),
        Some(CredentialManagementSubCommand::EnumerateRpsBegin)
    );
    assert_eq!(
        EnumKind::Rps.request(EnumAction::Next),
        Some(CredentialManagementSubCommand::EnumerateRpsGetNextRp)
    );
    assert_eq!(
        EnumKind::Credentials.request(EnumAction::Begin),
        Some(CredentialManagementSubCommand::EnumerateCredentialsBegin)
    );
    assert_eq!(
        EnumKind::Credentials.request(EnumAction::Next),
        Some(CredentialManagementSubCommand::EnumerateCredentialsGetNextCredential)
    );
    assert_eq!(EnumKind::Rps.request(EnumAction::Finish), None);
    assert_eq!(EnumKind::Credentials.request(EnumAction::Finish), None);
}
