//! The credential protection policy of the `credProtect` extension.

use vstd::prelude::*;

verus! {

/// How far a credential is protected by user verification.
#[derive(Debug, Clone, Copy, PartialEq, Eq, Structural)]
pub enum CredentialProtectionPolicy {
    /// A number that stands for no policy known here.
    Unknown,
    UserVerificationOptional,
    UserVerificationOptionalWithCredentialIDList,
    UserVerificationRequired,
}

impl CredentialProtectionPolicy {
    /// The policy that a number stands for: 1, 2 and 3 have one each.
    pub open spec fn of_number(n: u32) -> CredentialProtectionPolicy {
        if n == 1 {
            CredentialProtectionPolicy::UserVerificationOptional
        } else if n == 2 {
            CredentialProtectionPolicy::UserVerificationOptionalWithCredentialIDList
        } else if n == 3 {
            CredentialProtectionPolicy::UserVerificationRequired
        } else {
            CredentialProtectionPolicy::Unknown
        }
    }

    /// The number that stands for a policy; 0 for `Unknown`.
    pub open spec fn number(self) -> u32 {
        match self {
            CredentialProtectionPolicy::Unknown => 0,
            CredentialProtectionPolicy::UserVerificationOptional => 1,
            CredentialProtectionPolicy::UserVerificationOptionalWithCredentialIDList => 2,
            CredentialProtectionPolicy::UserVerificationRequired => 3,
        }
    }

    /// Reads a policy from its number.
    pub fn from_number(n: u32) -> (r: CredentialProtectionPolicy)
        ensures
            r == Self::of_number(n),
    {
        if n == 1 {
            CredentialProtectionPolicy::UserVerificationOptional
        } else if n == 2 {
            CredentialProtectionPolicy::UserVerificationOptionalWithCredentialIDList
        } else if n == 3 {
            CredentialProtectionPolicy::UserVerificationRequired
        } else {
            CredentialProtectionPolicy::Unknown
        }
    }

    /// The number under which a policy is sent.
    pub fn to_number(self) -> (n: u32)
        ensures
            n == self.number(),
    {
        match self {
            CredentialProtectionPolicy::Unknown => 0,
            CredentialProtectionPolicy::UserVerificationOptional => 1,
            CredentialProtectionPolicy::UserVerificationOptionalWithCredentialIDList => 2,
            CredentialProtectionPolicy::UserVerificationRequired => 3,
        }
    }
}

/// A policy that has a number of its own is read back from that number.
pub proof fn lemma_policy_round_trip(p: CredentialProtectionPolicy)
    requires
        p != CredentialProtectionPolicy::Unknown,
    ensures
        CredentialProtectionPolicy::of_number(p.number()) == p,
{
}

} // verus!
