//! Records of the credential-management command.

use crate::public_key::{PublicKey, PublicKeyModel};
use crate::public_key_credential_descriptor::{DescriptorModel, PublicKeyCredentialDescriptor};
use crate::public_key_credential_rp_entity::{PublicKeyCredentialRpEntity, RpEntityModel};
use crate::public_key_credential_user_entity::{PublicKeyCredentialUserEntity, UserEntityModel};
use vstd::prelude::*;

verus! {

/// Everything that one credential-management response can hold. Which
/// fields are filled depends on the subcommand that was asked.
#[derive(Debug, Clone, PartialEq, Eq)]
pub struct CredentialManagementData {
    pub existing_resident_credentials_count: u32,
    pub max_possible_remaining_resident_credentials_count: u32,
    pub public_key_credential_rp_entity: PublicKeyCredentialRpEntity,
    pub rpid_hash: Vec<u8>,
    pub total_rps: u32,
    pub public_key_credential_user_entity: PublicKeyCredentialUserEntity,
    pub public_key_credential_descriptor: PublicKeyCredentialDescriptor,
    pub public_key: PublicKey,
    pub total_credentials: u32,
    pub cred_protect: u32,
}

/// A credential-management response as a mathematical value.
#[verifier::ext_equal]
pub struct CredentialManagementModel {
    pub existing_resident_credentials_count: u32,
    pub max_possible_remaining_resident_credentials_count: u32,
    pub public_key_credential_rp_entity: RpEntityModel,
    pub rpid_hash: Seq<u8>,
    pub total_rps: u32,
    pub public_key_credential_user_entity: UserEntityModel,
    pub public_key_credential_descriptor: DescriptorModel,
    pub public_key: PublicKeyModel,
    pub total_credentials: u32,
    pub cred_protect: u32,
}

impl View for CredentialManagementData {
    type V = CredentialManagementModel;

    open spec fn view(&self) -> CredentialManagementModel {
        CredentialManagementModel {
            existing_resident_credentials_count: self.existing_resident_credentials_count,
            max_possible_remaining_resident_credentials_count: self.max_possible_remaining_resident_credentials_count,
            public_key_credential_rp_entity: self.public_key_credential_rp_entity@,
            rpid_hash: self.rpid_hash@,
            total_rps: self.total_rps,
            public_key_credential_user_entity: self.public_key_credential_user_entity@,
            public_key_credential_descriptor: self.public_key_credential_descriptor@,
            public_key: self.public_key@,
            total_credentials: self.total_credentials,
            cred_protect: self.cred_protect,
        }
    }
}

impl CredentialManagementModel {
    /// The response with every field at its default.
    pub open spec fn empty() -> CredentialManagementModel {
        CredentialManagementModel {
            existing_resident_credentials_count: 0,
            max_possible_remaining_resident_credentials_count: 0,
            public_key_credential_rp_entity: RpEntityModel::empty(),
            rpid_hash: Seq::empty(),
            total_rps: 0,
            public_key_credential_user_entity: UserEntityModel::empty(),
            public_key_credential_descriptor: DescriptorModel::empty(),
            public_key: PublicKeyModel::empty(),
            total_credentials: 0,
            cred_protect: 0,
        }
    }
}

impl Default for CredentialManagementData {
    fn default() -> (r: Self)
        ensures
            r@ == CredentialManagementModel::empty(),
    {
        let r = CredentialManagementData {
            existing_resident_credentials_count: 0,
            max_possible_remaining_resident_credentials_count: 0,
            public_key_credential_rp_entity: PublicKeyCredentialRpEntity::default(),
            rpid_hash: Vec::new(),
            total_rps: 0,
            public_key_credential_user_entity: PublicKeyCredentialUserEntity::default(),
            public_key_credential_descriptor: PublicKeyCredentialDescriptor::default(),
            public_key: PublicKey::default(),
            total_credentials: 0,
            cred_protect: 0,
        };
        assert(r@ =~= CredentialManagementModel::empty());
        r
    }
}

/// How many discoverable credentials the authenticator holds and how many
/// more it has room for.
#[derive(Debug, Clone, Copy, PartialEq, Eq, Structural)]
pub struct CredentialsCount {
    pub existing_resident_credentials_count: u32,
    pub max_possible_remaining_resident_credentials_count: u32,
}

impl CredentialsCount {
    /// The counts of a response.
    pub open spec fn of(data: CredentialManagementModel) -> CredentialsCount {
        CredentialsCount {
            existing_resident_credentials_count: data.existing_resident_credentials_count,
            max_possible_remaining_resident_credentials_count: data.max_possible_remaining_resident_credentials_count,
        }
    }

    /// Takes the counts from a response.
    pub fn new(data: &CredentialManagementData) -> (r: CredentialsCount)
        ensures
            r == Self::of(data@),
    {
        CredentialsCount {
            existing_resident_credentials_count: data.existing_resident_credentials_count,
            max_possible_remaining_resident_credentials_count: data.max_possible_remaining_resident_credentials_count,
        }
    }
}

/// A relying party for which the authenticator holds credentials.
#[derive(Debug, Clone, PartialEq, Eq)]
pub struct Rp {
    pub public_key_credential_rp_entity: PublicKeyCredentialRpEntity,
    pub rpid_hash: Vec<u8>,
}

/// An enumerated relying party as a mathematical value.
#[verifier::ext_equal]
pub struct RpModel {
    pub public_key_credential_rp_entity: RpEntityModel,
    pub rpid_hash: Seq<u8>,
}

impl View for Rp {
    type V = RpModel;

    open spec fn view(&self) -> RpModel {
        RpModel {
            public_key_credential_rp_entity: self.public_key_credential_rp_entity@,
            rpid_hash: self.rpid_hash@,
        }
    }
}

impl RpModel {
    /// The relying party of a response.
    pub open spec fn of(data: CredentialManagementModel) -> RpModel {
        RpModel {
            public_key_credential_rp_entity: data.public_key_credential_rp_entity,
            rpid_hash: data.rpid_hash,
        }
    }
}

impl Rp {
    /// Takes the relying party out of a response.
    pub fn new(data: CredentialManagementData) -> (r: Rp)
        ensures
            r@ == RpModel::of(data@),
    {
        Rp {
            public_key_credential_rp_entity: data.public_key_credential_rp_entity,
            rpid_hash: data.rpid_hash,
        }
    }
}

/// A discoverable credential that the authenticator holds.
#[derive(Debug, Clone, PartialEq, Eq)]
pub struct Credential {
    pub public_key_credential_user_entity: PublicKeyCredentialUserEntity,
    pub public_key_credential_descriptor: PublicKeyCredentialDescriptor,
    pub public_key: PublicKey,
    pub cred_protect: u32,
}

/// An enumerated credential as a mathematical value.
#[verifier::ext_equal]
pub struct CredentialModel {
    pub public_key_credential_user_entity: UserEntityModel,
    pub public_key_credential_descriptor: DescriptorModel,
    pub public_key: PublicKeyModel,
    pub cred_protect: u32,
}

impl View for Credential {
    type V = CredentialModel;

    open spec fn view(&self) -> CredentialModel {
        CredentialModel {
            public_key_credential_user_entity: self.public_key_credential_user_entity@,
            public_key_credential_descriptor: self.public_key_credential_descriptor@,
            public_key: self.public_key@,
            cred_protect: self.cred_protect,
        }
    }
}

impl CredentialModel {
    /// The credential of a response.
    pub open spec fn of(data: CredentialManagementModel) -> CredentialModel {
        CredentialModel {
            public_key_credential_user_entity: data.public_key_credential_user_entity,
            public_key_credential_descriptor: data.public_key_credential_descriptor,
            public_key: data.public_key,
            cred_protect: data.cred_protect,
        }
    }
}

impl Credential {
    /// Takes the credential out of a response.
    pub fn new(data: CredentialManagementData) -> (r: Credential)
        ensures
            r@ == CredentialModel::of(data@),
    {
        Credential {
            public_key_credential_user_entity: data.public_key_credential_user_entity,
            public_key_credential_descriptor: data.public_key_credential_descriptor,
            public_key: data.public_key,
            cred_protect: data.cred_protect,
        }
    }
}

/// The relying parties of a list, each as a mathematical value.
pub open spec fn rps_view(list: Seq<Rp>) -> Seq<RpModel> {
    Seq::new(list.len(), |i: int| list[i]@)
}

/// The credentials of a list, each as a mathematical value.
pub open spec fn credentials_view(list: Seq<Credential>) -> Seq<CredentialModel> {
    Seq::new(list.len(), |i: int| list[i]@)
}

} // verus!
