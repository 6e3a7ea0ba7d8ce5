//! Records of the get-assertion command.

use crate::public_key_credential_user_entity::{PublicKeyCredentialUserEntity, UserEntityModel};
use vstd::prelude::*;

verus! {

/// What the authenticator returns for an assertion.
#[derive(Debug, Clone, PartialEq, Eq)]
pub struct Assertion {
    pub rpid_hash: Vec<u8>,
    pub flags_user_present_result: bool,
    pub flags_user_verified_result: bool,
    pub sign_count: u32,
    pub number_of_credentials: u32,
    pub signature: Vec<u8>,
    pub user: PublicKeyCredentialUserEntity,
    pub credential_id: Vec<u8>,
    pub auth_data: Vec<u8>,
}

/// An assertion as a mathematical value.
#[verifier::ext_equal]
pub struct AssertionModel {
    pub rpid_hash: Seq<u8>,
    pub flags_user_present_result: bool,
    pub flags_user_verified_result: bool,
    pub sign_count: u32,
    pub number_of_credentials: u32,
    pub signature: Seq<u8>,
    pub user: UserEntityModel,
    pub credential_id: Seq<u8>,
    pub auth_data: Seq<u8>,
}

impl View for Assertion {
    type V = AssertionModel;

    open spec fn view(&self) -> AssertionModel {
        AssertionModel {
            rpid_hash: self.rpid_hash@,
            flags_user_present_result: self.flags_user_present_result,
            flags_user_verified_result: self.flags_user_verified_result,
            sign_count: self.sign_count,
            number_of_credentials: self.number_of_credentials,
            signature: self.signature@,
            user: self.user@,
            credential_id: self.credential_id@,
            auth_data: self.auth_data@,
        }
    }
}

impl AssertionModel {
    /// The assertion with every field at its default.
    pub open spec fn empty() -> AssertionModel {
        AssertionModel {
            rpid_hash: Seq::empty(),
            flags_user_present_result: false,
            flags_user_verified_result: false,
            sign_count: 0,
            number_of_credentials: 0,
            signature: Seq::empty(),
            user: UserEntityModel::empty(),
            credential_id: Seq::empty(),
            auth_data: Seq::empty(),
        }
    }
}

impl Default for Assertion {
    fn default() -> (r: Self)
        ensures
            r@ == AssertionModel::empty(),
    {
        let r = Assertion {
            rpid_hash: Vec::new(),
            flags_user_present_result: false,
            flags_user_verified_result: false,
            sign_count: 0,
            number_of_credentials: 0,
            signature: Vec::new(),
            user: PublicKeyCredentialUserEntity::default(),
            credential_id: Vec::new(),
            auth_data: Vec::new(),
        };
        assert(r@ =~= AssertionModel::empty());
        r
    }
}

} // verus!
