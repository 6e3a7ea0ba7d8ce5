//! Negotiation of a PIN/UV auth token.
//!
//! The negotiation goes through four states. From `NoSecret` the
//! authenticator is asked for its key-agreement key (`KeyAgreementSent`).
//! With that key and a key pair of its own the platform derives a shared
//! secret (`SharedSecretDerived`), encrypts the hash of the PIN with it and
//! exchanges it for the encrypted token. Decrypted with the shared secret,
//! that is the token (`TokenObtained`).
//!
//! A `PinState` decides what is due; the caller sends the requests and does
//! the cryptography. Whatever fails, the negotiation is back at `NoSecret`,
//! and nothing of it is kept.

use crate::error::CtapError;
use crate::public_key::{PublicKey, PublicKeyModel};
use vstd::prelude::*;

verus! {

/// Why a negotiation was aborted.
#[derive(Debug, Clone, Copy, PartialEq, Eq, Structural)]
pub enum PinError {
    /// A request failed: the transport, the framing, or the authenticator
    /// refused (wrong PIN, no retries left).
    Rejected(CtapError),
    /// A cryptographic step failed on the platform.
    Crypto,
    /// Something was reported that was not due.
    OutOfOrder,
}

/// What the platform derived from the authenticator's key.
#[derive(Debug, Clone, PartialEq, Eq)]
pub struct Derived {
    /// The shared secret.
    pub shared_secret: Vec<u8>,
    /// The x coordinate of the platform's key-agreement key.
    pub platform_x: Vec<u8>,
    /// The y coordinate of the platform's key-agreement key.
    pub platform_y: Vec<u8>,
    /// The hash of the PIN, encrypted with the shared secret.
    pub pin_hash_enc: Vec<u8>,
}

/// What was derived, as a mathematical value.
#[verifier::ext_equal]
pub struct DerivedModel {
    pub shared_secret: Seq<u8>,
    pub platform_x: Seq<u8>,
    pub platform_y: Seq<u8>,
    pub pin_hash_enc: Seq<u8>,
}

impl View for Derived {
    type V = DerivedModel;

    open spec fn view(&self) -> DerivedModel {
        DerivedModel {
            shared_secret: self.shared_secret@,
            platform_x: self.platform_x@,
            platform_y: self.platform_y@,
            pin_hash_enc: self.pin_hash_enc@,
        }
    }
}

/// What the caller reports.
#[derive(Debug, Clone, PartialEq, Eq)]
pub enum PinEvent {
    /// A token is wanted.
    Begin,
    /// The authenticator answered the key-agreement request with its key.
    KeyAgreement(PublicKey),
    /// The platform derived the shared secret and encrypted the PIN hash.
    SecretDerived(Derived),
    /// The authenticator answered the token request with the encrypted
    /// token.
    TokenReceived(Vec<u8>),
    /// The platform decrypted the token.
    TokenDecrypted(Vec<u8>),
    /// The step that was due failed.
    Failed(PinError),
}

/// An event as a mathematical value.
pub enum PinEventModel {
    Begin,
    KeyAgreement(PublicKeyModel),
    SecretDerived(DerivedModel),
    TokenReceived(Seq<u8>),
    TokenDecrypted(Seq<u8>),
    Failed(PinError),
}

impl View for PinEvent {
    type V = PinEventModel;

    open spec fn view(&self) -> PinEventModel {
        match *self {
            PinEvent::Begin => PinEventModel::Begin,
            PinEvent::KeyAgreement(k) => PinEventModel::KeyAgreement(k@),
            PinEvent::SecretDerived(d) => PinEventModel::SecretDerived(d@),
            PinEvent::TokenReceived(t) => PinEventModel::TokenReceived(t@),
            PinEvent::TokenDecrypted(t) => PinEventModel::TokenDecrypted(t@),
            PinEvent::Failed(e) => PinEventModel::Failed(e),
        }
    }
}

/// What the caller is to do next.
#[derive(Debug, Clone, PartialEq, Eq)]
pub enum PinAction {
    /// Send the get-key-agreement request.
    RequestKeyAgreement,
    /// Derive the shared secret from the authenticator's key and encrypt the
    /// PIN hash.
    DeriveSecret(PublicKey),
    /// Send the get-PIN-token request with the platform's key and the
    /// encrypted PIN hash.
    RequestToken { platform_x: Vec<u8>, platform_y: Vec<u8>, pin_hash_enc: Vec<u8> },
    /// Decrypt the token with the shared secret.
    DecryptToken { shared_secret: Vec<u8>, encrypted: Vec<u8> },
    /// The token is there.
    Ready,
    /// The negotiation is aborted.
    Abort(PinError),
}

/// An action as a mathematical value.
pub enum PinActionModel {
    RequestKeyAgreement,
    DeriveSecret(PublicKeyModel),
    RequestToken { platform_x: Seq<u8>, platform_y: Seq<u8>, pin_hash_enc: Seq<u8> },
    DecryptToken { shared_secret: Seq<u8>, encrypted: Seq<u8> },
    Ready,
    Abort(PinError),
}

impl View for PinAction {
    type V = PinActionModel;

    open spec fn view(&self) -> PinActionModel {
        match *self {
            PinAction::RequestKeyAgreement => PinActionModel::RequestKeyAgreement,
            PinAction::DeriveSecret(k) => PinActionModel::DeriveSecret(k@),
            PinAction::RequestToken { platform_x, platform_y, pin_hash_enc } => {
                PinActionModel::RequestToken {
                    platform_x: platform_x@,
                    platform_y: platform_y@,
                    pin_hash_enc: pin_hash_enc@,
                }
            },
            PinAction::DecryptToken { shared_secret, encrypted } => PinActionModel::DecryptToken {
                shared_secret: shared_secret@,
                encrypted: encrypted@,
            },
            PinAction::Ready => PinActionModel::Ready,
            PinAction::Abort(e) => PinActionModel::Abort(e),
        }
    }
}

/// How far a negotiation has come.
#[derive(Debug, Clone, PartialEq, Eq)]
pub enum PinState {
    /// Nothing is held.
    NoSecret,
    /// The key-agreement request is out. `answered` says whether the
    /// authenticator's key has come and the derivation is due.
    KeyAgreementSent { answered: bool },
    /// The shared secret is held and the token request is out. `encrypted`
    /// is the encrypted token, once it has come.
    SharedSecretDerived { shared_secret: Vec<u8>, encrypted: Option<Vec<u8>> },
    /// The token is held.
    TokenObtained { token: Vec<u8> },
}

/// A state as a mathematical value.
pub enum PinModel {
    NoSecret,
    KeyAgreementSent { answered: bool },
    SharedSecretDerived { shared_secret: Seq<u8>, encrypted: Option<Seq<u8>> },
    TokenObtained { token: Seq<u8> },
}

impl View for PinState {
    type V = PinModel;

    open spec fn view(&self) -> PinModel {
        match *self {
            PinState::NoSecret => PinModel::NoSecret,
            PinState::KeyAgreementSent { answered } => PinModel::KeyAgreementSent { answered },
            PinState::SharedSecretDerived { shared_secret, encrypted } => {
                PinModel::SharedSecretDerived {
                    shared_secret: shared_secret@,
                    encrypted: match encrypted {
                        Some(e) => Some(e@),
                        None => None,
                    },
                }
            },
            PinState::TokenObtained { token } => PinModel::TokenObtained { token: token@ },
        }
    }
}

/// The abort of a negotiation: nothing is held afterwards.
pub open spec fn aborted(e: PinError) -> (PinModel, PinActionModel) {
    (PinModel::NoSecret, PinActionModel::Abort(e))
}

/// The step that an event causes.
///
/// `Begin` starts a negotiation from any state and drops what was held. A
/// failure aborts. Every other event is taken only in the state in which it
/// is due, and aborts elsewhere.
pub open spec fn pin_step(state: PinModel, event: PinEventModel) -> (PinModel, PinActionModel) {
    match event {
        PinEventModel::Begin => (
            PinModel::KeyAgreementSent { answered: false },
            PinActionModel::RequestKeyAgreement,
        ),
        PinEventModel::Failed(e) => aborted(e),
        PinEventModel::KeyAgreement(peer) => match state {
            PinModel::KeyAgreementSent { answered: false } => (
                PinModel::KeyAgreementSent { answered: true },
                PinActionModel::DeriveSecret(peer),
            ),
            _ => aborted(PinError::OutOfOrder),
        },
        PinEventModel::SecretDerived(derived) => match state {
            PinModel::KeyAgreementSent { answered: true } => (
                PinModel::SharedSecretDerived {
                    shared_secret: derived.shared_secret,
                    encrypted: None,
                },
                PinActionModel::RequestToken {
                    platform_x: derived.platform_x,
                    platform_y: derived.platform_y,
                    pin_hash_enc: derived.pin_hash_enc,
                },
            ),
            _ => aborted(PinError::OutOfOrder),
        },
        PinEventModel::TokenReceived(token) => match state {
            PinModel::SharedSecretDerived { shared_secret, encrypted: None } => (
                PinModel::SharedSecretDerived { shared_secret, encrypted: Some(token) },
                PinActionModel::DecryptToken { shared_secret, encrypted: token },
            ),
            _ => aborted(PinError::OutOfOrder),
        },
        PinEventModel::TokenDecrypted(token) => match state {
            PinModel::SharedSecretDerived { encrypted: Some(_), .. } => (
                PinModel::TokenObtained { token },
                PinActionModel::Ready,
            ),
            _ => aborted(PinError::OutOfOrder),
        },
    }
}

fn abort(e: PinError) -> (next: (PinState, PinAction))
    ensures
        next.0@ == aborted(e).0,
        next.1@ == aborted(e).1,
{
    (PinState::NoSecret, PinAction::Abort(e))
}

impl PinState {
    /// A negotiation that has not begun.
    pub fn new() -> (r: PinState)
        ensures
            r@ == PinModel::NoSecret,
    {
        PinState::NoSecret
    }

    /// Takes what the caller reports and says what to do next.
    pub fn advance(self, event: PinEvent) -> (next: (PinState, PinAction))
        ensures
            next.0@ == pin_step(self@, event@).0,
            next.1@ == pin_step(self@, event@).1,
    {
        match event {
            PinEvent::Begin => (
                PinState::KeyAgreementSent { answered: false },
                PinAction::RequestKeyAgreement,
            ),
            PinEvent::Failed(e) => abort(e),
            PinEvent::KeyAgreement(peer) => match self {
                PinState::KeyAgreementSent { answered: false } => (
                    PinState::KeyAgreementSent { answered: true },
                    PinAction::DeriveSecret(peer),
                ),
                _ => abort(PinError::OutOfOrder),
            },
            PinEvent::SecretDerived(derived) => match self {
                PinState::KeyAgreementSent { answered: true } => (
                    PinState::SharedSecretDerived {
                        shared_secret: derived.shared_secret,
                        encrypted: None,
                    },
                    PinAction::RequestToken {
                        platform_x: derived.platform_x,
                        platform_y: derived.platform_y,
                        pin_hash_enc: derived.pin_hash_enc,
                    },
                ),
                _ => abort(PinError::OutOfOrder),
            },
            PinEvent::TokenReceived(token) => match self {
                PinState::SharedSecretDerived { shared_secret, encrypted: None } => {
                    let secret = vstd::slice::slice_to_vec(shared_secret.as_slice());
                    let copy = vstd::slice::slice_to_vec(token.as_slice());
                    (
                        PinState::SharedSecretDerived { shared_secret, encrypted: Some(token) },
                        PinAction::DecryptToken { shared_secret: secret, encrypted: copy },
                    )
                },
                _ => abort(PinError::OutOfOrder),
            },
            PinEvent::TokenDecrypted(token) => match self {
                PinState::SharedSecretDerived { encrypted: Some(_), .. } => (
                    PinState::TokenObtained { token },
                    PinAction::Ready,
                ),
                _ => abort(PinError::OutOfOrder),
            },
        }
    }

    /// The token, once it is obtained.
    pub fn token(&self) -> (r: Option<&Vec<u8>>)
        ensures
            match self@ {
                PinModel::TokenObtained { token } => r matches Some(t) && t@ == token,
                _ => r is None,
            },
    {
        match self {
            PinState::TokenObtained { token } => Some(token),
            _ => None,
        }
    }
}

/// Whatever fails, the negotiation is back at the start and holds nothing:
/// neither a secret nor a token outlasts a failure or a report that was not
/// due.
pub proof fn lemma_failure_holds_nothing(state: PinModel, event: PinEventModel)
    requires
        pin_step(state, event).1 is Abort,
    ensures
        pin_step(state, event).0 == PinModel::NoSecret,
{
}

/// A token is obtained in one way only: the shared secret is held, the
/// encrypted token has come, and its decryption is reported.
pub proof fn lemma_token_only_by_decryption(state: PinModel, event: PinEventModel)
    requires
        pin_step(state, event).0 is TokenObtained,
    ensures
        state matches PinModel::SharedSecretDerived { encrypted: Some(_), .. },
        event matches PinEventModel::TokenDecrypted(token) && pin_step(state, event).0 == (
        PinModel::TokenObtained { token }),
{
}

/// A negotiation in which every step succeeds goes through the states in
/// order and ends with the token that was decrypted.
pub proof fn lemma_negotiation_succeeds(
    start: PinModel,
    peer: PublicKeyModel,
    derived: DerivedModel,
    encrypted: Seq<u8>,
    token: Seq<u8>,
)
    ensures
        ({
            let s1 = pin_step(start, PinEventModel::Begin);
            let s2 = pin_step(s1.0, PinEventModel::KeyAgreement(peer));
            let s3 = pin_step(s2.0, PinEventModel::SecretDerived(derived));
            let s4 = pin_step(s3.0, PinEventModel::TokenReceived(encrypted));
            let s5 = pin_step(s4.0, PinEventModel::TokenDecrypted(token));
            &&& s1.1 == PinActionModel::RequestKeyAgreement
            &&& s2.1 == PinActionModel::DeriveSecret(peer)
            &&& s3.1 == (PinActionModel::RequestToken {
                platform_x: derived.platform_x,
                platform_y: derived.platform_y,
                pin_hash_enc: derived.pin_hash_enc,
            })
            &&& s4.1 == (PinActionModel::DecryptToken {
                shared_secret: derived.shared_secret,
                encrypted,
            })
            &&& s5.1 == PinActionModel::Ready
            &&& s5.0 == (PinModel::TokenObtained { token })
        }),
{
}

} // verus!
