use ctap_hid_fido2::cbor::{decode, CborValue};
use ctap_hid_fido2::error::{CtapError, DecodeError};
use ctap_hid_fido2::credential_protection::CredentialProtectionPolicy;
use ctap_hid_fido2::make_credential_params::{CredentialSupportedKeyType, Extension};
use ctap_hid_fido2::public_key_credential_descriptor::PublicKeyCredentialDescriptor;
use ctap_hid_fido2::public_key_credential_rp_entity::PublicKeyCredentialRpEntity;
use ctap_hid_fido2::public_key_credential_user_entity::PublicKeyCredentialUserEntity;
use ctap_hid_fido2::request::{
    bio_enrollment_parameters, BioEnrollmentSubCommand, credential_management_auth_message, credential_management_parameters, encode_request,
    get_assertion_parameters, make_credential_parameters, sub_command_parameters,
    CredentialManagementSubCommand, GetAssertionArgs, MakeCredentialArgs,
    CTAP2_CREDENTIAL_MANAGEMENT, CTAP2_GET_INFO, CTAP2_MAKE_CREDENTIAL,
};
use ctap_hid_fido2::response::response_body;

fn num(n: i128) -> CborValue {
    CborValue::Integer(n)
}

fn text(t: &str) -> CborValue {
    CborValue::Text(t.to_string())
}

fn args(pin_auth: Option<Vec<u8>>) -> MakeCredentialArgs {
    MakeCredentialArgs {
        rp: PublicKeyCredentialRpEntity { id: "ctapcli".to_string(), name: "notes".to_string() },
        client_data_hash: vec![0xcd; 32],
        user: PublicKeyCredentialUserEntity {
            id: b"alice".to_vec(),
            name: "secret-note".to_string(),
            display_name: String::new(),
        },
        key_type: CredentialSupportedKeyType::Ecdsa256,
        resident_key: true,
        user_verification: false,
        extensions: vec![],
        pin_auth,
    }
}

fn descriptor() -> PublicKeyCredentialDescriptor {
    PublicKeyCredentialDescriptor { id: vec![1, 2], ctype: "public-key".to_string() }
}

#[test]
fn request_without_parameters_is_the_command_byte() {
    assert_eq!(encode_request(CTAP2_GET_INFO, None), Some(vec![0x04]));
}

#[test]
fn request_is_command_byte_then_map() {
    let map = CborValue::Dict(vec![(num(1), num(2))]);
    assert_eq!(
        encode_request(CTAP2_CREDENTIAL_MANAGEMENT, Some(&map)),
        Some(vec![0x0a, 0xa1, 0x01, 0x02])
    );
    let unwritable = CborValue::Dict(vec![(num(1), num(1 << 70))]);
    assert_eq!(encode_request(CTAP2_CREDENTIAL_MANAGEMENT, Some(&unwritable)), None);
}

#[test]
fn make_credential_request_has_the_fixed_keys() {
    let expected = |with_pin: bool| {
        let mut entries = vec![
            (num(1), CborValue::Bytes(vec![0xcd; 32])),
            (num(2), CborValue::Dict(vec![(text("id"), text("ctapcli")), (text("name"), text("notes"))])),
            (
                num(3),
                CborValue::Dict(vec![
                    (text("id"), CborValue::Bytes(b"alice".to_vec())),
                    (text("name"), text("secret-note")),
                    (text("displayName"), text("")),
                ]),
            ),
            (
                num(4),
                CborValue::Array(vec![CborValue::Dict(vec![
                    (text("alg"), num(-7)),
                    (text("type"), text("public-key")),
                ])]),
            ),
            (
                num(7),
                CborValue::Dict(vec![
                    (text("rk"), CborValue::Bool(true)),
                    (text("uv"), CborValue::Bool(false)),
                ]),
            ),
        ];
        if with_pin {
            entries.push((num(8), CborValue::Bytes(vec![0xee; 16])));
            entries.push((num(9), num(1)));
        }
        CborValue::Dict(entries)
    };
    assert_eq!(make_credential_parameters(&args(None)), expected(false));
    assert_eq!(make_credential_parameters(&args(Some(vec![0xee; 16]))), expected(true));
    let mut other = args(None);
    other.key_type = CredentialSupportedKeyType::Ed25519;
    other.resident_key = false;
    other.user_verification = true;
    let made = make_credential_parameters(&other);
    let fields = made.entries().unwrap();
    assert_eq!(
        fields[3].1,
        CborValue::Array(vec![CborValue::Dict(vec![
            (text("alg"), num(-8)),
            (text("type"), text("public-key")),
        ])])
    );
    assert_eq!(
        fields[4].1,
        CborValue::Dict(vec![
            (text("rk"), CborValue::Bool(false)),
            (text("uv"), CborValue::Bool(true)),
        ])
    );
}

#[test]
fn make_credential_request_bytes_start_with_the_command() {
    let bytes = encode_request(
        CTAP2_MAKE_CREDENTIAL,
        Some(&make_credential_parameters(&args(Some(vec![1])))),
    )
    .unwrap();
    assert_eq!(bytes[0], 0x01);
    assert_eq!(bytes[1], 0xa7);
    let decoded = decode(&bytes[1..]).unwrap();
    let keys: Vec<i128> = decoded
        .entries()
        .unwrap()
        .iter()
        .map(|(k, _)| match k {
            CborValue::Integer(n) => *n,
            _ => panic!("a key that is no integer"),
        })
        .collect();
    assert_eq!(keys, vec![1, 2, 3, 4, 7, 8, 9]);
}

#[test]
fn get_assertion_request_has_the_fixed_keys() {
    let mut args = GetAssertionArgs {
        rp_id: "test.com".to_string(),
        client_data_hash: vec![0xab; 32],
        credential_id: vec![],
        user_presence: true,
        user_verification: false,
        pin_auth: None,
    };
    let options = || {
        CborValue::Dict(vec![
            (text("up"), CborValue::Bool(true)),
            (text("uv"), CborValue::Bool(false)),
        ])
    };
    assert_eq!(
        get_assertion_parameters(&args),
        CborValue::Dict(vec![
            (num(1), text("test.com")),
            (num(2), CborValue::Bytes(vec![0xab; 32])),
            (num(5), options()),
        ])
    );
    args.credential_id = vec![9, 9];
    args.pin_auth = Some(vec![0x11; 16]);
    assert_eq!(
        get_assertion_parameters(&args),
        CborValue::Dict(vec![
            (num(1), text("test.com")),
            (num(2), CborValue::Bytes(vec![0xab; 32])),
            (
                num(3),
                CborValue::Array(vec![CborValue::Dict(vec![
                    (text("id"), CborValue::Bytes(vec![9, 9])),
                    (text("type"), text("public-key")),
                ])])
            ),
            (num(5), options()),
            (num(6), CborValue::Bytes(vec![0x11; 16])),
            (num(7), num(1)),
        ])
    );
}

#[test]
fn credential_management_subcommands_are_numbered() {
    assert_eq!(CredentialManagementSubCommand::GetCredsMetadata.code(), 1);
    assert_eq!(CredentialManagementSubCommand::EnumerateRpsBegin.code(), 2);
    assert_eq!(CredentialManagementSubCommand::EnumerateRpsGetNextRp.code(), 3);
    assert_eq!(CredentialManagementSubCommand::EnumerateCredentialsBegin.code(), 4);
    assert_eq!(
        CredentialManagementSubCommand::EnumerateCredentialsGetNextCredential.code(),
        5
    );
    assert_eq!(CredentialManagementSubCommand::DeleteCredential.code(), 6);
}

#[test]
fn credential_management_parameters_depend_on_the_subcommand() {
    let hash = [0x77u8; 32];
    assert_eq!(
        sub_command_parameters(
            CredentialManagementSubCommand::EnumerateCredentialsBegin,
            &hash,
            &descriptor()
        ),
        Some(CborValue::Dict(vec![(num(1), CborValue::Bytes(hash.to_vec()))]))
    );
    assert_eq!(
        sub_command_parameters(
            CredentialManagementSubCommand::DeleteCredential,
            &hash,
            &descriptor()
        ),
        Some(CborValue::Dict(vec![(
            num(2),
            CborValue::Dict(vec![
                (text("id"), CborValue::Bytes(vec![1, 2])),
                (text("type"), text("public-key")),
            ])
        )]))
    );
    for plain in [
        CredentialManagementSubCommand::GetCredsMetadata,
        CredentialManagementSubCommand::EnumerateRpsBegin,
        CredentialManagementSubCommand::EnumerateRpsGetNextRp,
        CredentialManagementSubCommand::EnumerateCredentialsGetNextCredential,
    ] {
        assert_eq!(sub_command_parameters(plain, &hash, &descriptor()), None);
    }
}

#[test]
fn credential_management_request_has_the_fixed_keys() {
    let hash = [0x77u8; 4];
    assert_eq!(
        credential_management_parameters(
            CredentialManagementSubCommand::EnumerateRpsBegin,
            &hash,
            &descriptor(),
            &None
        ),
        CborValue::Dict(vec![(num(1), num(2))])
    );
    assert_eq!(
        credential_management_parameters(
            CredentialManagementSubCommand::EnumerateRpsGetNextRp,
            &hash,
            &descriptor(),
            &Some(vec![5; 16])
        ),
        CborValue::Dict(vec![
            (num(1), num(3)),
            (num(3), num(1)),
            (num(4), CborValue::Bytes(vec![5; 16])),
        ])
    );
    assert_eq!(
        credential_management_parameters(
            CredentialManagementSubCommand::EnumerateCredentialsBegin,
            &hash,
            &descriptor(),
            &Some(vec![5; 16])
        ),
        CborValue::Dict(vec![
            (num(1), num(4)),
            (num(2), CborValue::Dict(vec![(num(1), CborValue::Bytes(hash.to_vec()))])),
            (num(3), num(1)),
            (num(4), CborValue::Bytes(vec![5; 16])),
        ])
    );
}

#[test]
fn auth_message_is_subcommand_then_parameters() {
    let hash = [0x77u8; 2];
    assert_eq!(
        credential_management_auth_message(
            CredentialManagementSubCommand::EnumerateRpsBegin,
            &hash,
            &descriptor()
        ),
        Some(vec![0x02])
    );
    assert_eq!(
        credential_management_auth_message(
            CredentialManagementSubCommand::EnumerateCredentialsBegin,
            &hash,
            &descriptor()
        ),
        Some(vec![0x04, 0xa1, 0x01, 0x42, 0x77, 0x77])
    );
}

#[test]
fn response_status_is_taken_off() {
    assert_eq!(response_body(&[0x00, 0xa0]), Ok(vec![0xa0]));
    assert_eq!(response_body(&[0x00]), Ok(vec![]));
    assert_eq!(response_body(&[0x2e]), Err(CtapError::Protocol(0x2e)));
    assert_eq!(response_body(&[0x31, 0xa0]), Err(CtapError::Protocol(0x31)));
    assert_eq!(response_body(&[]), Err(CtapError::Decode(DecodeError::Empty)));
}

#[test]
fn bio_enrollment_request_has_the_fixed_keys() {
    assert_eq!(
        bio_enrollment_parameters(BioEnrollmentSubCommand::GetFingerprintSensorInfo, &None),
        CborValue::Dict(vec![(num(1), num(1)), (num(2), num(7))])
    );
    assert_eq!(
        bio_enrollment_parameters(
            BioEnrollmentSubCommand::EnumerateEnrollments,
            &Some(vec![8; 16])
        ),
        CborValue::Dict(vec![
            (num(1), num(1)),
            (num(2), num(4)),
            (num(4), num(1)),
            (num(5), CborValue::Bytes(vec![8; 16])),
        ])
    );
    assert_eq!(BioEnrollmentSubCommand::EnumerateEnrollments.auth_message(), vec![1, 4]);
    assert_eq!(BioEnrollmentSubCommand::GetFingerprintSensorInfo.auth_message(), vec![1, 7]);
    assert_eq!(BioEnrollmentSubCommand::GetFingerprintSensorInfo.code(), 7);
}

#[test]
fn make_credential_request_sends_the_extensions_that_have_a_value() {
    let mut with = args(None);
    with.extensions = vec![
        Extension::HmacSecret(Some(true)),
        Extension::CredBlob(None),
        Extension::CredProtect(Some(CredentialProtectionPolicy::UserVerificationRequired)),
        Extension::MinPinLength(Some(false)),
        Extension::CredBlob(Some(vec![1, 2])),
        Extension::CredProtect(None),
    ];
    let made = make_credential_parameters(&with);
    let fields = made.entries().unwrap();
    assert_eq!(fields.len(), 6);
    assert_eq!(fields[4].0, num(6));
    assert_eq!(
        fields[4].1,
        CborValue::Dict(vec![
            (text("hmac-secret"), CborValue::Bool(true)),
            (text("credProtect"), num(3)),
            (text("minPinLength"), CborValue::Bool(false)),
            (text("credBlob"), CborValue::Bytes(vec![1, 2])),
        ])
    );
    assert_eq!(fields[5].0, num(7));
    let mut without = args(None);
    without.extensions = vec![Extension::HmacSecret(None), Extension::MinPinLength(None)];
    assert_eq!(
        make_credential_parameters(&without),
        make_credential_parameters(&args(None))
    );
}
