use ctap_hid_fido2::cbor::{encode, CborValue};
use ctap_hid_fido2::client_pin::{
    from_cbor, get_key_agreement_parameters, get_pin_token_parameters, get_retries_parameters,
    parse_cbor, ClientPinData,
};
use ctap_hid_fido2::error::{CtapError, DecodeError};
use ctap_hid_fido2::pin::{Derived, PinAction, PinError, PinEvent, PinState};
use ctap_hid_fido2::public_key::{PublicKey, PublicKeyType};

fn peer() -> PublicKey {
    PublicKey { key_type: PublicKeyType::Ecdsa256, der: vec![4, 1, 2] }
}

fn derived() -> Derived {
    Derived {
        shared_secret: vec![9; 32],
        platform_x: vec![1; 32],
        platform_y: vec![2; 32],
        pin_hash_enc: vec![3; 16],
    }
}

#[test]
fn retries_are_decoded() {
    assert_eq!(
        parse_cbor(&[0xa1, 0x03, 0x08]),
        Ok(ClientPinData { retries: 8, ..ClientPinData::default() })
    );
}

#[test]
fn key_agreement_and_token_are_decoded() {
    let item = CborValue::Dict(vec![
        (
            CborValue::Integer(1),
            CborValue::Dict(vec![
                (CborValue::Integer(1), CborValue::Integer(2)),
                (CborValue::Integer(3), CborValue::Integer(-25)),
                (CborValue::Integer(-1), CborValue::Integer(1)),
                (CborValue::Integer(-2), CborValue::Bytes(vec![1])),
                (CborValue::Integer(-3), CborValue::Bytes(vec![2])),
            ]),
        ),
        (CborValue::Integer(2), CborValue::Bytes(vec![7; 32])),
        (CborValue::Integer(4), CborValue::Bool(true)),
    ]);
    assert_eq!(
        from_cbor(&item),
        Ok(ClientPinData { key_agreement: peer(), pin_token_enc: vec![7; 32], retries: 0 })
    );
}

#[test]
fn client_pin_errors() {
    assert_eq!(parse_cbor(&[0xa1, 0x03, 0x20]), Err(DecodeError::TypeMismatch));
    assert_eq!(parse_cbor(&[0xa1, 0x02, 0x01]), Err(DecodeError::TypeMismatch));
    assert_eq!(parse_cbor(&[0xa1, 0x01, 0x01]), Err(DecodeError::TypeMismatch));
    assert_eq!(parse_cbor(&[0x03]), Err(DecodeError::NotAMap));
    assert_eq!(parse_cbor(&[]), Err(DecodeError::InvalidCbor));
}

#[test]
fn plain_client_pin_requests() {
    assert_eq!(
        encode(&get_retries_parameters()),
        Some(vec![0xa2, 0x01, 0x01, 0x02, 0x01])
    );
    assert_eq!(
        encode(&get_key_agreement_parameters()),
        Some(vec![0xa2, 0x01, 0x01, 0x02, 0x02])
    );
}

#[test]
fn pin_token_request() {
    let parameters = get_pin_token_parameters(&[0xaa, 0xbb], &[0xcc], &[0xdd, 0xee]);
    assert_eq!(
        parameters,
        CborValue::Dict(vec![
            (CborValue::Integer(1), CborValue::Integer(1)),
            (CborValue::Integer(2), CborValue::Integer(5)),
            (
                CborValue::Integer(3),
                CborValue::Dict(vec![
                    (CborValue::Integer(1), CborValue::Integer(2)),
                    (CborValue::Integer(3), CborValue::Integer(-25)),
                    (CborValue::Integer(-1), CborValue::Integer(1)),
                    (CborValue::Integer(-2), CborValue::Bytes(vec![0xaa, 0xbb])),
                    (CborValue::Integer(-3), CborValue::Bytes(vec![0xcc])),
                ])
            ),
            (CborValue::Integer(6), CborValue::Bytes(vec![0xdd, 0xee])),
        ])
    );
    assert_eq!(
        encode(&parameters),
        Some(vec![
            0xa4, 0x01, 0x01, 0x02, 0x05, 0x03, 0xa5, 0x01, 0x02, 0x03, 0x38, 0x18, 0x20, 0x01,
            0x21, 0x42, 0xaa, 0xbb, 0x22, 0x41, 0xcc, 0x06, 0x42, 0xdd, 0xee
        ])
    );
}

#[test]
fn negotiation_goes_through_its_states() {
    let state = PinState::new();
    assert_eq!(state, PinState::NoSecret);
    assert_eq!(state.token(), None);
    let (state, action) = state.advance(PinEvent::Begin);
    assert_eq!(state, PinState::KeyAgreementSent { answered: false });
    assert_eq!(action, PinAction::RequestKeyAgreement);
    let (state, action) = state.advance(PinEvent::KeyAgreement(peer()));
    assert_eq!(state, PinState::KeyAgreementSent { answered: true });
    assert_eq!(action, PinAction::DeriveSecret(peer()));
    let (state, action) = state.advance(PinEvent::SecretDerived(derived()));
    assert_eq!(
        state,
        PinState::SharedSecretDerived { shared_secret: vec![9; 32], encrypted: None }
    );
    assert_eq!(
        action,
        PinAction::RequestToken {
            platform_x: vec![1; 32],
            platform_y: vec![2; 32],
            pin_hash_enc: vec![3; 16]
        }
    );
    let (state, action) = state.advance(PinEvent::TokenReceived(vec![5; 32]));
    assert_eq!(
        state,
        PinState::SharedSecretDerived { shared_secret: vec![9; 32], encrypted: Some(vec![5; 32]) }
    );
    assert_eq!(
        action,
        PinAction::DecryptToken { shared_secret: vec![9; 32], encrypted: vec![5; 32] }
    );
    let (state, action) = state.advance(PinEvent::TokenDecrypted(vec![6; 32]));
    assert_eq!(state, PinState::TokenObtained { token: vec![6; 32] });
    assert_eq!(action, PinAction::Ready);
    assert_eq!(state.token(), Some(&vec![6; 32]));
}

#[test]
fn negotiation_failure_keeps_nothing() {
    let states = || {
        vec![
            PinState::NoSecret,
            PinState::KeyAgreementSent { answered: false },
            PinState::KeyAgreementSent { answered: true },
            PinState::SharedSecretDerived { shared_secret: vec![1], encrypted: None },
            PinState::SharedSecretDerived { shared_secret: vec![1], encrypted: Some(vec![2]) },
            PinState::TokenObtained { token: vec![3] },
        ]
    };
    for error in [
        PinError::Rejected(CtapError::Protocol(0x31)),
        PinError::Rejected(CtapError::Transport),
        PinError::Crypto,
    ] {
        for state in states() {
            let (state, action) = state.advance(PinEvent::Failed(error));
            assert_eq!(state, PinState::NoSecret);
            assert_eq!(action, PinAction::Abort(error));
            assert_eq!(state.token(), None);
        }
    }
}

#[test]
fn negotiation_refuses_what_is_not_due() {
    let cases = vec![
        (PinState::NoSecret, PinEvent::KeyAgreement(peer())),
        (PinState::NoSecret, PinEvent::SecretDerived(derived())),
        (PinState::NoSecret, PinEvent::TokenReceived(vec![1])),
        (PinState::NoSecret, PinEvent::TokenDecrypted(vec![1])),
        (PinState::KeyAgreementSent { answered: false }, PinEvent::SecretDerived(derived())),
        (PinState::KeyAgreementSent { answered: true }, PinEvent::KeyAgreement(peer())),
        (PinState::KeyAgreementSent { answered: true }, PinEvent::TokenDecrypted(vec![1])),
        (
            PinState::SharedSecretDerived { shared_secret: vec![1], encrypted: None },
            PinEvent::TokenDecrypted(vec![1]),
        ),
        (
            PinState::SharedSecretDerived { shared_secret: vec![1], encrypted: Some(vec![2]) },
            PinEvent::TokenReceived(vec![1]),
        ),
        (PinState::TokenObtained { token: vec![3] }, PinEvent::TokenDecrypted(vec![1])),
        (PinState::TokenObtained { token: vec![3] }, PinEvent::KeyAgreement(peer())),
    ];
    for (state, event) in cases {
        let (state, action) = state.advance(event);
        assert_eq!(state, PinState::NoSecret);
        assert_eq!(action, PinAction::Abort(PinError::OutOfOrder));
    }
}

#[test]
fn negotiation_begins_anew_from_any_state() {
    for state in [
        PinState::NoSecret,
        PinState::KeyAgreementSent { answered: true },
        PinState::SharedSecretDerived { shared_secret: vec![1], encrypted: Some(vec![2]) },
        PinState::TokenObtained { token: vec![3] },
    ] {
        let (state, action) = state.advance(PinEvent::Begin);
        assert_eq!(state, PinState::KeyAgreementSent { answered: false });
        assert_eq!(action, PinAction::RequestKeyAgreement);
    }
}
