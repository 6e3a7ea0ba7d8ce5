//! Records of the make-credential command.

use crate::credential_protection::CredentialProtectionPolicy;
use crate::public_key::{PublicKey, PublicKeyModel};
use crate::public_key_credential_descriptor::{DescriptorModel, PublicKeyCredentialDescriptor};
use vstd::prelude::*;

verus! {

/// An extension of a credential, with the value that came with it, if any.
#[derive(Debug, Clone, PartialEq, Eq)]
pub enum Extension {
    CredProtect(Option<CredentialProtectionPolicy>),
    CredBlob(Option<Vec<u8>>),
    MinPinLength(Option<bool>),
    HmacSecret(Option<bool>),
}

/// An extension as a mathematical value.
pub enum ExtensionModel {
    CredProtect(Option<CredentialProtectionPolicy>),
    CredBlob(Option<Seq<u8>>),
    MinPinLength(Option<bool>),
    HmacSecret(Option<bool>),
}

impl View for Extension {
    type V = ExtensionModel;

    open spec fn view(&self) -> ExtensionModel {
        match *self {
            Extension::CredProtect(p) => ExtensionModel::CredProtect(p),
            Extension::CredBlob(b) => ExtensionModel::CredBlob(
                match b {
                    Some(bytes) => Some(bytes@),
                    None => None,
                },
            ),
            Extension::MinPinLength(b) => ExtensionModel::MinPinLength(b),
            Extension::HmacSecret(b) => ExtensionModel::HmacSecret(b),
        }
    }
}

impl ExtensionModel {
    /// The name under which the extension stands in an extension map.
    pub open spec fn name(self) -> Seq<char> {
        match self {
            ExtensionModel::CredProtect(_) => "credProtect"@,
            ExtensionModel::CredBlob(_) => "credBlob"@,
            ExtensionModel::MinPinLength(_) => "minPinLength"@,
            ExtensionModel::HmacSecret(_) => "hmac-secret"@,
        }
    }
}

impl Extension {
    /// The name under which the extension stands in an extension map.
    pub fn as_ref(&self) -> (name: &'static str)
        ensures
            name@ == self@.name(),
    {
        match self {
            Extension::CredProtect(_) => "credProtect",
            Extension::CredBlob(_) => "credBlob",
            Extension::MinPinLength(_) => "minPinLength",
            Extension::HmacSecret(_) => "hmac-secret",
        }
    }
}

/// The extensions of a list, each as a mathematical value.
pub open spec fn extensions_view(list: Seq<Extension>) -> Seq<ExtensionModel> {
    Seq::new(list.len(), |i: int| list[i]@)
}

/// The signature algorithms that a credential can be asked for.
#[derive(Debug, Clone, Copy, PartialEq, Eq, Structural)]
pub enum CredentialSupportedKeyType {
    Ecdsa256,
    Ed25519,
}

impl Default for CredentialSupportedKeyType {
    fn default() -> (r: Self)
        ensures
            r == CredentialSupportedKeyType::Ecdsa256,
    {
        CredentialSupportedKeyType::Ecdsa256
    }
}

impl CredentialSupportedKeyType {
    /// The COSE algorithm number: -7 for ECDSA with SHA-256, -8 for EdDSA.
    pub open spec fn number(self) -> i32 {
        match self {
            CredentialSupportedKeyType::Ecdsa256 => -7i32,
            CredentialSupportedKeyType::Ed25519 => -8i32,
        }
    }

    /// The COSE algorithm number under which the key type is asked for.
    pub fn alg(self) -> (n: i32)
        ensures
            n == self.number(),
    {
        match self {
            CredentialSupportedKeyType::Ecdsa256 => -7,
            CredentialSupportedKeyType::Ed25519 => -8,
        }
    }
}

/// Attestation object: what the authenticator returns for a new credential.
#[derive(Debug, Clone, PartialEq, Eq)]
pub struct Attestation {
    pub fmt: String,
    pub rpid_hash: Vec<u8>,
    pub flags_user_present_result: bool,
    pub flags_user_verified_result: bool,
    pub flags_attested_credential_data_included: bool,
    pub flags_extension_data_included: bool,
    pub sign_count: u32,
    pub aaguid: Vec<u8>,
    pub credential_descriptor: PublicKeyCredentialDescriptor,
    pub credential_publickey: PublicKey,
    pub extensions: Vec<Extension>,
    pub auth_data: Vec<u8>,
    pub attstmt_alg: i32,
    pub attstmt_sig: Vec<u8>,
    pub attstmt_x5c: Vec<Vec<u8>>,
}

/// An attestation object as a mathematical value.
#[verifier::ext_equal]
pub struct AttestationModel {
    pub fmt: Seq<char>,
    pub rpid_hash: Seq<u8>,
    pub flags_user_present_result: bool,
    pub flags_user_verified_result: bool,
    pub flags_attested_credential_data_included: bool,
    pub flags_extension_data_included: bool,
    pub sign_count: u32,
    pub aaguid: Seq<u8>,
    pub credential_descriptor: DescriptorModel,
    pub credential_publickey: PublicKeyModel,
    pub extensions: Seq<ExtensionModel>,
    pub auth_data: Seq<u8>,
    pub attstmt_alg: i32,
    pub attstmt_sig: Seq<u8>,
    pub attstmt_x5c: Seq<Seq<u8>>,
}

/// The byte strings of a list, each as a sequence.
pub open spec fn chain_view(list: Seq<Vec<u8>>) -> Seq<Seq<u8>> {
    Seq::new(list.len(), |i: int| list[i]@)
}

impl View for Attestation {
    type V = AttestationModel;

    open spec fn view(&self) -> AttestationModel {
        AttestationModel {
            fmt: self.fmt@,
            rpid_hash: self.rpid_hash@,
            flags_user_present_result: self.flags_user_present_result,
            flags_user_verified_result: self.flags_user_verified_result,
            flags_attested_credential_data_included: self.flags_attested_credential_data_included,
            flags_extension_data_included: self.flags_extension_data_included,
            sign_count: self.sign_count,
            aaguid: self.aaguid@,
            credential_descriptor: self.credential_descriptor@,
            credential_publickey: self.credential_publickey@,
            extensions: extensions_view(self.extensions@),
            auth_data: self.auth_data@,
            attstmt_alg: self.attstmt_alg,
            attstmt_sig: self.attstmt_sig@,
            attstmt_x5c: chain_view(self.attstmt_x5c@),
        }
    }
}

impl AttestationModel {
    /// The attestation with every field at its default.
    pub open spec fn empty() -> AttestationModel {
        AttestationModel {
            fmt: Seq::empty(),
            rpid_hash: Seq::empty(),
            flags_user_present_result: false,
            flags_user_verified_result: false,
            flags_attested_credential_data_included: false,
            flags_extension_data_included: false,
            sign_count: 0,
            aaguid: Seq::empty(),
            credential_descriptor: DescriptorModel::empty(),
            credential_publickey: PublicKeyModel::empty(),
            extensions: Seq::empty(),
            auth_data: Seq::empty(),
            attstmt_alg: 0,
            attstmt_sig: Seq::empty(),
            attstmt_x5c: Seq::empty(),
        }
    }
}

impl Default for Attestation {
    fn default() -> (r: Self)
        ensures
            r@ == AttestationModel::empty(),
    {
        let r = Attestation {
            fmt: String::new(),
            rpid_hash: Vec::new(),
            flags_user_present_result: false,
            flags_user_verified_result: false,
            flags_attested_credential_data_included: false,
            flags_extension_data_included: false,
            sign_count: 0,
            aaguid: Vec::new(),
            credential_descriptor: PublicKeyCredentialDescriptor::default(),
            credential_publickey: PublicKey::default(),
            extensions: Vec::new(),
            auth_data: Vec::new(),
            attstmt_alg: 0,
            attstmt_sig: Vec::new(),
            attstmt_x5c: Vec::new(),
        };
        assert(r@ =~= AttestationModel::empty());
        r
    }
}

} // verus!
