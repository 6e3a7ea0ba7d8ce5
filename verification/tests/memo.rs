use ctap_hid_fido2::credential_management_params::{Credential, CredentialManagementData, Rp};
use ctap_hid_fido2::credential_management_response;
use ctap_hid_fido2::ctaphid::{
    fragment, BROADCAST_CHANNEL, CTAPHID_CBOR, CTAPHID_INIT,
};
use ctap_hid_fido2::dispatch::{Action, Event, Transaction};
use ctap_hid_fido2::enumerate::{into_credentials, into_rps, EnumKind, Enumeration};
use ctap_hid_fido2::error::CtapError;
use ctap_hid_fido2::make_credential_params::{Attestation, CredentialSupportedKeyType};
use ctap_hid_fido2::make_credential_response;
use ctap_hid_fido2::memo::{
    add_plan, delete_plan, get_plan, search_credential, search_rp, tags, AddPlan, DeletePlan,
    GetPlan,
};
use ctap_hid_fido2::public_key::PublicKey;
use ctap_hid_fido2::public_key_credential_descriptor::PublicKeyCredentialDescriptor;
use ctap_hid_fido2::public_key_credential_rp_entity::PublicKeyCredentialRpEntity;
use ctap_hid_fido2::public_key_credential_user_entity::PublicKeyCredentialUserEntity;
use ctap_hid_fido2::receiver::reassemble;
use ctap_hid_fido2::request::{
    credential_management_parameters, encode_request, make_credential_parameters,
    CredentialManagementSubCommand, MakeCredentialArgs, CTAP2_CREDENTIAL_MANAGEMENT,
    CTAP2_MAKE_CREDENTIAL,
};
use ctap_hid_fido2::response::response_body;
use serde_cbor::Value;
use std::collections::BTreeMap;

const RPID: &str = "ctapcli";

struct Held {
    rp_id: String,
    user_id: Vec<u8>,
    user_name: String,
    credential_id: Vec<u8>,
}

/// An authenticator in software. It holds discoverable credentials and
/// answers make-credential and credential-management requests.
struct Authenticator {
    held: Vec<Held>,
    pending_rps: Vec<String>,
    pending_credentials: Vec<usize>,
    made: u8,
    channel: u32,
    outgoing: Vec<Vec<u8>>,
    requests: usize,
}

fn new_authenticator() -> Authenticator {
    Authenticator {
        held: vec![],
        pending_rps: vec![],
        pending_credentials: vec![],
        made: 0,
        channel: 0x0100_0000,
        outgoing: vec![],
        requests: 0,
    }
}

/// Stands in for the hash of a relying party's id.
fn hash_of(rp_id: &str) -> Vec<u8> {
    let mut hash = vec![0u8; 32];
    for (i, b) in rp_id.bytes().enumerate() {
        hash[i % 32] = hash[i % 32].wrapping_mul(31).wrapping_add(b);
    }
    hash
}

fn map_of(entries: Vec<(Value, Value)>) -> Value {
    let mut map = BTreeMap::new();
    for (k, v) in entries {
        map.insert(k, v);
    }
    Value::Map(map)
}

fn text(t: &str) -> Value {
    Value::Text(t.to_string())
}

fn field<'a>(map: &'a Value, key: Value) -> Option<&'a Value> {
    match map {
        Value::Map(entries) => entries.get(&key),
        _ => None,
    }
}

fn bytes_in(map: &Value, key: Value) -> Vec<u8> {
    match field(map, key) {
        Some(Value::Bytes(b)) => b.clone(),
        _ => panic!("bytes expected"),
    }
}

fn text_in(map: &Value, key: Value) -> String {
    match field(map, key) {
        Some(Value::Text(t)) => t.clone(),
        _ => panic!("text expected"),
    }
}

fn cose_key() -> Value {
    map_of(vec![
        (Value::Integer(1), Value::Integer(2)),
        (Value::Integer(3), Value::Integer(-7)),
        (Value::Integer(-1), Value::Integer(1)),
        (Value::Integer(-2), Value::Bytes(vec![0x0a; 32])),
        (Value::Integer(-3), Value::Bytes(vec![0x0b; 32])),
    ])
}

fn ok(map: Value) -> Vec<u8> {
    let mut response = vec![0x00];
    response.extend(serde_cbor::to_vec(&map).unwrap());
    response
}

fn rp_entry(rp_id: &str, total: Option<usize>) -> Vec<u8> {
    let mut entries = vec![
        (Value::Integer(3), map_of(vec![(text("id"), text(rp_id))])),
        (Value::Integer(4), Value::Bytes(hash_of(rp_id))),
    ];
    if let Some(n) = total {
        entries.push((Value::Integer(5), Value::Integer(n as i128)));
    }
    ok(map_of(entries))
}

fn credential_entry(held: &Held, total: Option<usize>) -> Vec<u8> {
    let mut entries = vec![
        (
            Value::Integer(6),
            map_of(vec![
                (text("id"), Value::Bytes(held.user_id.clone())),
                (text("name"), text(&held.user_name)),
            ]),
        ),
        (
            Value::Integer(7),
            map_of(vec![
                (text("id"), Value::Bytes(held.credential_id.clone())),
                (text("type"), text("public-key")),
            ]),
        ),
        (Value::Integer(8), cose_key()),
        (Value::Integer(10), Value::Integer(1)),
    ];
    if let Some(n) = total {
        entries.push((Value::Integer(9), Value::Integer(n as i128)));
    }
    ok(map_of(entries))
}

fn answer(device: &mut Authenticator, request: &[u8]) -> Vec<u8> {
    device.requests += 1;
    let parameters: Value = serde_cbor::from_slice(&request[1..]).unwrap();
    match request[0] {
        0x01 => {
            let rp = field(&parameters, Value::Integer(2)).unwrap();
            let user = field(&parameters, Value::Integer(3)).unwrap();
            device.made += 1;
            let held = Held {
                rp_id: text_in(rp, text("id")),
                user_id: bytes_in(user, text("id")),
                user_name: text_in(user, text("name")),
                credential_id: vec![0xc0, device.made],
            };
            let mut auth_data = hash_of(&held.rp_id);
            auth_data.push(0x45);
            auth_data.extend_from_slice(&[0, 0, 0, device.made]);
            auth_data.extend_from_slice(&[0xa5; 16]);
            auth_data.extend_from_slice(&[0, 2]);
            auth_data.extend_from_slice(&held.credential_id);
            auth_data.extend(serde_cbor::to_vec(&cose_key()).unwrap());
            device.held.push(held);
            ok(map_of(vec![
                (Value::Integer(1), text("none")),
                (Value::Integer(2), Value::Bytes(auth_data)),
                (Value::Integer(3), map_of(vec![])),
            ]))
        }
        0x0a => match field(&parameters, Value::Integer(1)) {
            Some(Value::Integer(2)) => {
                let mut rps: Vec<String> = vec![];
                for held in &device.held {
                    if !rps.contains(&held.rp_id) {
                        rps.push(held.rp_id.clone());
                    }
                }
                if rps.is_empty() {
                    return vec![0x2e];
                }
                let first = rps.remove(0);
                device.pending_rps = rps;
                rp_entry(&first, Some(device.pending_rps.len() + 1))
            }
            Some(Value::Integer(3)) => {
                if device.pending_rps.is_empty() {
                    return vec![0x30];
                }
                let next = device.pending_rps.remove(0);
                rp_entry(&next, None)
            }
            Some(Value::Integer(4)) => {
                let sub = field(&parameters, Value::Integer(2)).unwrap();
                let hash = bytes_in(sub, Value::Integer(1));
                let mut found: Vec<usize> = (0..device.held.len())
                    .filter(|i| hash_of(&device.held[*i].rp_id) == hash)
                    .collect();
                if found.is_empty() {
                    return vec![0x2e];
                }
                let first = found.remove(0);
                device.pending_credentials = found;
                credential_entry(&device.held[first], Some(device.pending_credentials.len() + 1))
            }
            Some(Value::Integer(5)) => {
                if device.pending_credentials.is_empty() {
                    return vec![0x30];
                }
                let next = device.pending_credentials.remove(0);
                credential_entry(&device.held[next], None)
            }
            Some(Value::Integer(6)) => {
                let sub = field(&parameters, Value::Integer(2)).unwrap();
                let descriptor = field(sub, Value::Integer(2)).unwrap();
                let id = bytes_in(descriptor, text("id"));
                let before = device.held.len();
                device.held.retain(|held| held.credential_id != id);
                if device.held.len() == before {
                    vec![0x2e]
                } else {
                    vec![0x00]
                }
            }
            _ => vec![0x01],
        },
        _ => vec![0x01],
    }
}

/// What the authenticator does with the reports written to it.
fn written(device: &mut Authenticator, reports: &Vec<Vec<u8>>) {
    let cid = u32::from_be_bytes([reports[0][0], reports[0][1], reports[0][2], reports[0][3]]);
    let message = reassemble(cid, reports).unwrap();
    if message.command == CTAPHID_INIT {
        device.channel += 1;
        let mut reply = message.payload.clone();
        reply.extend_from_slice(&device.channel.to_be_bytes());
        reply.extend_from_slice(&[2, 1, 0, 0, 0x04]);
        device
            .outgoing
            .extend(fragment(BROADCAST_CHANNEL, CTAPHID_INIT, &reply).unwrap());
    } else {
        assert_eq!(cid, device.channel);
        let response = answer(device, &message.payload);
        device
            .outgoing
            .extend(fragment(cid, message.command, &response).unwrap());
    }
}

/// One command round trip over reports.
fn transact(device: &mut Authenticator, request: Vec<u8>) -> Result<Vec<u8>, CtapError> {
    let nonce = 0x0123_4567_89ab_cdef ^ (device.requests as u64);
    let (mut tx, mut action) = Transaction::start(nonce, CTAPHID_CBOR, request);
    for _ in 0..10000 {
        match action {
            Action::Send(reports) => {
                written(device, &reports);
                let next = tx.advance(Event::Report(device.outgoing.remove(0)));
                tx = next.0;
                action = next.1;
            }
            Action::Read => {
                let next = tx.advance(Event::Report(device.outgoing.remove(0)));
                tx = next.0;
                action = next.1;
            }
            Action::Stop => return tx.finish().unwrap(),
        }
    }
    panic!("the transaction did not end");
}

fn credential_management(
    device: &mut Authenticator,
    sub_command: CredentialManagementSubCommand,
    rpid_hash: &[u8],
    descriptor: &PublicKeyCredentialDescriptor,
) -> Result<CredentialManagementData, CtapError> {
    let parameters =
        credential_management_parameters(sub_command, rpid_hash, descriptor, &Some(vec![0x5a; 16]));
    let request = encode_request(CTAP2_CREDENTIAL_MANAGEMENT, Some(&parameters)).unwrap();
    let payload = transact(device, request)?;
    let body = response_body(&payload)?;
    credential_management_response::parse_cbor(&body).map_err(CtapError::Decode)
}

fn enumerate(
    device: &mut Authenticator,
    kind: EnumKind,
    rpid_hash: &[u8],
) -> Result<Vec<CredentialManagementData>, CtapError> {
    let nothing = PublicKeyCredentialDescriptor::default();
    let mut state = Enumeration::new(kind);
    for _ in 0..1000 {
        let sub_command = match kind.request(state.action()) {
            Some(sub_command) => sub_command,
            None => return state.finish().unwrap(),
        };
        state = match credential_management(device, sub_command, rpid_hash, &nothing) {
            Ok(data) => state.on_response(data),
            Err(e) => state.on_error(e),
        };
    }
    panic!("the enumeration did not end");
}

fn get_rps(device: &mut Authenticator) -> Vec<Rp> {
    into_rps(enumerate(device, EnumKind::Rps, &[]).unwrap())
}

fn get_credentials(device: &mut Authenticator, rpid_hash: &[u8]) -> Vec<Credential> {
    into_credentials(enumerate(device, EnumKind::Credentials, rpid_hash).unwrap())
}

fn notes(device: &mut Authenticator, rpid: &str) -> Vec<Credential> {
    let rps = get_rps(device);
    match search_rp(&rps, rpid) {
        Some(i) => get_credentials(device, &rps[i].rpid_hash),
        None => vec![],
    }
}

fn make_credential(
    device: &mut Authenticator,
    rpid: &str,
    user: PublicKeyCredentialUserEntity,
) -> Attestation {
    let args = MakeCredentialArgs {
        rp: PublicKeyCredentialRpEntity { id: rpid.to_string(), name: String::new() },
        client_data_hash: vec![0x11; 32],
        user,
        key_type: CredentialSupportedKeyType::Ecdsa256,
        resident_key: true,
        user_verification: false,
        extensions: vec![],
        pin_auth: Some(vec![0x22; 16]),
    };
    let request =
        encode_request(CTAP2_MAKE_CREDENTIAL, Some(&make_credential_parameters(&args))).unwrap();
    let body = response_body(&transact(device, request).unwrap()).unwrap();
    make_credential_response::parse_cbor(&body).unwrap()
}

/// Adds a note; says whether it was added.
fn add(device: &mut Authenticator, rpid: &str, tag: &str, text: &str) -> bool {
    let held = notes(device, rpid);
    let found = search_credential(&held, tag.as_bytes()).map(|i| &held[i]);
    match add_plan(found, tag.as_bytes(), text) {
        AddPlan::Create(user) => {
            let attestation = make_credential(device, rpid, user);
            assert!(attestation.flags_attested_credential_data_included);
            assert_eq!(attestation.rpid_hash, hash_of(rpid));
            true
        }
        AddPlan::TagExists => false,
    }
}

fn get(device: &mut Authenticator, rpid: &str, tag: &str) -> Option<String> {
    let held = notes(device, rpid);
    let found = search_credential(&held, tag.as_bytes()).map(|i| &held[i]);
    match get_plan(found) {
        GetPlan::Text(text) => Some(text),
        GetPlan::TagNotFound => None,
    }
}

fn delete(device: &mut Authenticator, rpid: &str, tag: &str) -> bool {
    let held = notes(device, rpid);
    let found = search_credential(&held, tag.as_bytes()).map(|i| &held[i]);
    match delete_plan(found) {
        DeletePlan::Delete(descriptor) => {
            credential_management(
                device,
                CredentialManagementSubCommand::DeleteCredential,
                &[],
                &descriptor,
            )
            .unwrap();
            true
        }
        DeletePlan::TagNotFound => false,
    }
}

#[test]
fn note_is_added_once_and_found_by_its_tag() {
    let mut device = new_authenticator();
    assert_eq!(get(&mut device, RPID, "alice"), None);
    assert!(add(&mut device, RPID, "alice", "secret-note"));
    assert_eq!(device.held.len(), 1);
    assert_eq!(get(&mut device, RPID, "alice"), Some("secret-note".to_string()));
    assert!(!add(&mut device, RPID, "alice", "another note"));
    assert_eq!(device.held.len(), 1);
    assert_eq!(get(&mut device, RPID, "alice"), Some("secret-note".to_string()));
}

#[test]
fn notes_with_other_tags_do_not_hide_a_note() {
    let mut device = new_authenticator();
    assert!(add(&mut device, RPID, "bob", "first"));
    assert!(add(&mut device, RPID, "carol", "second"));
    assert!(add(&mut device, "example.org", "alice", "elsewhere"));
    assert_eq!(get(&mut device, RPID, "alice"), None);
    assert!(add(&mut device, RPID, "alice", "secret-note"));
    assert_eq!(get(&mut device, RPID, "alice"), Some("secret-note".to_string()));
    assert_eq!(get(&mut device, RPID, "bob"), Some("first".to_string()));
    assert_eq!(get(&mut device, "example.org", "alice"), Some("elsewhere".to_string()));
    assert!(!add(&mut device, RPID, "alice", "again"));
    assert_eq!(device.held.len(), 4);
    let held = notes(&mut device, RPID);
    assert_eq!(
        tags(&held),
        vec![b"bob".to_vec(), b"carol".to_vec(), b"alice".to_vec()]
    );
}

#[test]
fn note_is_deleted_by_its_tag() {
    let mut device = new_authenticator();
    assert!(!delete(&mut device, RPID, "alice"));
    assert!(add(&mut device, RPID, "alice", "secret-note"));
    assert!(add(&mut device, RPID, "bob", "other"));
    assert!(delete(&mut device, RPID, "alice"));
    assert_eq!(get(&mut device, RPID, "alice"), None);
    assert_eq!(get(&mut device, RPID, "bob"), Some("other".to_string()));
    assert!(!delete(&mut device, RPID, "alice"));
    assert!(add(&mut device, RPID, "alice", "new note"));
    assert_eq!(get(&mut device, RPID, "alice"), Some("new note".to_string()));
}

#[test]
fn long_note_takes_several_reports() {
    let mut device = new_authenticator();
    let long: String = (0..600).map(|i| char::from(b'a' + (i % 26) as u8)).collect();
    assert!(add(&mut device, RPID, "alice", &long));
    assert_eq!(get(&mut device, RPID, "alice"), Some(long));
}

#[test]
fn enumerate_rps_returns_exactly_the_relying_parties_held() {
    let mut device = new_authenticator();
    assert_eq!(get_rps(&mut device), vec![]);
    assert!(add(&mut device, "one.example", "a", "1"));
    assert!(add(&mut device, "two.example", "b", "2"));
    assert!(add(&mut device, "one.example", "c", "3"));
    let rps = get_rps(&mut device);
    assert_eq!(
        rps,
        vec![
            Rp {
                public_key_credential_rp_entity: PublicKeyCredentialRpEntity {
                    id: "one.example".to_string(),
                    name: String::new(),
                },
                rpid_hash: hash_of("one.example"),
            },
            Rp {
                public_key_credential_rp_entity: PublicKeyCredentialRpEntity {
                    id: "two.example".to_string(),
                    name: String::new(),
                },
                rpid_hash: hash_of("two.example"),
            },
        ]
    );
    assert_eq!(search_rp(&rps, "one.example"), Some(0));
    assert_eq!(search_rp(&rps, "two.example"), Some(1));
    assert_eq!(search_rp(&rps, "three.example"), None);
    assert_eq!(search_rp(&rps, ""), None);
}

#[test]
fn enumerate_credentials_is_scoped_to_one_relying_party() {
    let mut device = new_authenticator();
    assert!(add(&mut device, "one.example", "a", "1"));
    assert!(add(&mut device, "two.example", "b", "2"));
    assert!(add(&mut device, "one.example", "c", "3"));
    let of_one = get_credentials(&mut device, &hash_of("one.example"));
    assert_eq!(tags(&of_one), vec![b"a".to_vec(), b"c".to_vec()]);
    assert_eq!(
        of_one[0],
        Credential {
            public_key_credential_user_entity: PublicKeyCredentialUserEntity {
                id: b"a".to_vec(),
                name: "1".to_string(),
                display_name: String::new(),
            },
            public_key_credential_descriptor: PublicKeyCredentialDescriptor {
                id: vec![0xc0, 1],
                ctype: "public-key".to_string(),
            },
            public_key: PublicKey::from_cose(
                &ctap_hid_fido2::cbor::decode(&serde_cbor::to_vec(&cose_key()).unwrap()).unwrap()
            )
            .unwrap(),
            cred_protect: 1,
        }
    );
    let of_two = get_credentials(&mut device, &hash_of("two.example"));
    assert_eq!(tags(&of_two), vec![b"b".to_vec()]);
    assert_eq!(of_two[0].public_key_credential_user_entity.name, "2");
    assert_eq!(get_credentials(&mut device, &hash_of("three.example")), vec![]);
}

#[test]
fn every_command_opens_a_channel_of_its_own() {
    let mut device = new_authenticator();
    let first = device.channel;
    assert!(add(&mut device, RPID, "alice", "secret-note"));
    assert_eq!(device.channel as usize, first as usize + device.requests);
    assert_eq!(device.requests, 2);
    assert_eq!(get(&mut device, RPID, "alice"), Some("secret-note".to_string()));
    assert_eq!(device.requests, 4);
    assert_eq!(device.channel as usize, first as usize + 4);
    assert!(device.outgoing.is_empty());
}

#[test]
fn search_finds_the_first_match() {
    let credential = |tag: &[u8], text: &str| Credential {
        public_key_credential_user_entity: PublicKeyCredentialUserEntity {
            id: tag.to_vec(),
            name: text.to_string(),
            display_name: String::new(),
        },
        public_key_credential_descriptor: PublicKeyCredentialDescriptor {
            id: text.as_bytes().to_vec(),
            ctype: "public-key".to_string(),
        },
        public_key: PublicKey::default(),
        cred_protect: 0,
    };
    let held = vec![
        credential(b"a", "1"),
        credential(b"b", "2"),
        credential(b"a", "3"),
        credential(b"", "4"),
    ];
    assert_eq!(search_credential(&held, b"a"), Some(0));
    assert_eq!(search_credential(&held, b"b"), Some(1));
    assert_eq!(search_credential(&held, b""), Some(3));
    assert_eq!(search_credential(&held, b"ab"), None);
    assert_eq!(search_credential(&vec![], b"a"), None);
    assert_eq!(get_plan(Some(&held[2])), GetPlan::Text("3".to_string()));
    assert_eq!(get_plan(None), GetPlan::TagNotFound);
    assert_eq!(
        delete_plan(Some(&held[1])),
        DeletePlan::Delete(PublicKeyCredentialDescriptor {
            id: b"2".to_vec(),
            ctype: "public-key".to_string()
        })
    );
    assert_eq!(delete_plan(None), DeletePlan::TagNotFound);
    assert_eq!(add_plan(Some(&held[0]), b"a", "x"), AddPlan::TagExists);
    assert_eq!(
        add_plan(None, b"alice", "secret-note"),
        AddPlan::Create(PublicKeyCredentialUserEntity {
            id: b"alice".to_vec(),
            name: "secret-note".to_string(),
            display_name: String::new(),
        })
    );
}
