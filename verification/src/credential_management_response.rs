//! Decoding of the credential-management response.
//!
//! The response is a map. Key 1 holds the number of credentials held, key 2
//! the room left, key 3 the relying party, key 4 the hash of its id, key 5
//! the number of relying parties, key 6 the user, key 7 the credential's
//! descriptor, key 8 its public key, key 9 the number of credentials of the
//! relying party and key 10 the credential protection level. Other keys are
//! passed over.

use crate::cbor::{
    bytes_of, cbor_decoded, decode, integer_in, lemma_lookup_insert, lookup, pairs, CborNode,
    CborValue,
};
use crate::credential_management_params::{CredentialManagementData, CredentialManagementModel};
use crate::error::DecodeError;
use crate::fields::{
    agrees, bytes_field, first_error, is_key, key, lemma_first_error_insert,
    lemma_first_error_prefix, lemma_first_error_step, lemma_lookup_step, u32_field, EntryCheck,
};
use crate::public_key::{public_key_of, PublicKey, PublicKeyModel};
use crate::public_key_credential_descriptor::{
    descriptor_of, DescriptorModel, PublicKeyCredentialDescriptor,
};
use crate::public_key_credential_rp_entity::{
    rp_entity_of, PublicKeyCredentialRpEntity, RpEntityModel,
};
use crate::public_key_credential_user_entity::{
    user_entity_of, PublicKeyCredentialUserEntity, UserEntityModel,
};
use vstd::prelude::*;

verus! {

/// Whether a key holds a number.
pub open spec fn is_count_key(k: CborNode) -> bool {
    k == key(1) || k == key(2) || k == key(5) || k == key(9) || k == key(10)
}

/// Whether an entry of the response map can be taken.
pub open spec fn entry_ok(entry: (CborNode, CborNode)) -> bool {
    &&& is_count_key(entry.0) ==> integer_in(entry.1, 0, u32::MAX as int) is Some
    &&& entry.0 == key(3) ==> rp_entity_of(entry.1) is Some
    &&& entry.0 == key(4) ==> bytes_of(entry.1) is Some
    &&& entry.0 == key(6) ==> user_entity_of(entry.1) is Some
    &&& entry.0 == key(7) ==> descriptor_of(entry.1) is Some
    &&& entry.0 == key(8) ==> public_key_of(entry.1) is Some
}

/// What is wrong with an entry of the response map, if anything: an entry
/// that cannot be taken is a type mismatch.
pub open spec fn entry_error(entry: (CborNode, CborNode)) -> Option<DecodeError> {
    if entry_ok(entry) {
        None
    } else {
        Some(DecodeError::TypeMismatch)
    }
}

/// The rule by which the entries of the response map are checked.
pub open spec fn check() -> EntryCheck {
    |entry: (CborNode, CborNode)| entry_error(entry)
}

/// The relying party under key 3, or the empty one.
pub open spec fn rp_field(entries: Seq<(CborNode, CborNode)>) -> RpEntityModel {
    match lookup(entries, key(3)) {
        Some(v) => match rp_entity_of(v) {
            Some(rp) => rp,
            None => RpEntityModel::empty(),
        },
        None => RpEntityModel::empty(),
    }
}

/// The user under key 6, or the empty one.
pub open spec fn user_field(entries: Seq<(CborNode, CborNode)>) -> UserEntityModel {
    match lookup(entries, key(6)) {
        Some(v) => match user_entity_of(v) {
            Some(user) => user,
            None => UserEntityModel::empty(),
        },
        None => UserEntityModel::empty(),
    }
}

/// The descriptor under key 7, or the empty one.
pub open spec fn descriptor_field(entries: Seq<(CborNode, CborNode)>) -> DescriptorModel {
    match lookup(entries, key(7)) {
        Some(v) => match descriptor_of(v) {
            Some(d) => d,
            None => DescriptorModel::empty(),
        },
        None => DescriptorModel::empty(),
    }
}

/// The public key under key 8, or the empty one.
pub open spec fn public_key_field(entries: Seq<(CborNode, CborNode)>) -> PublicKeyModel {
    match lookup(entries, key(8)) {
        Some(v) => match public_key_of(v) {
            Some(k) => k,
            None => PublicKeyModel::empty(),
        },
        None => PublicKeyModel::empty(),
    }
}

/// The record that the entries of a response map stand for.
pub open spec fn record_of(entries: Seq<(CborNode, CborNode)>) -> CredentialManagementModel {
    CredentialManagementModel {
        existing_resident_credentials_count: u32_field(entries, key(1)),
        max_possible_remaining_resident_credentials_count: u32_field(entries, key(2)),
        public_key_credential_rp_entity: rp_field(entries),
        rpid_hash: bytes_field(entries, key(4)),
        total_rps: u32_field(entries, key(5)),
        public_key_credential_user_entity: user_field(entries),
        public_key_credential_descriptor: descriptor_field(entries),
        public_key: public_key_field(entries),
        total_credentials: u32_field(entries, key(9)),
        cred_protect: u32_field(entries, key(10)),
    }
}

/// The credential-management data that a CBOR item stands for. The item
/// must be a map; an entry that cannot be taken is a type mismatch.
pub open spec fn credential_management_of(node: CborNode) -> Result<
    CredentialManagementModel,
    DecodeError,
> {
    match node {
        CborNode::Dict(entries) => match first_error(entries, check()) {
            Some(e) => Err(e),
            None => Ok(record_of(entries)),
        },
        _ => Err(DecodeError::NotAMap),
    }
}

/// The credential-management data that response bytes stand for. A response
/// without bytes is the empty map: some subcommands answer with the status
/// alone.
pub open spec fn credential_management_parsed(bytes: Seq<u8>) -> Result<
    CredentialManagementModel,
    DecodeError,
> {
    if bytes.len() == 0 {
        Ok(CredentialManagementModel::empty())
    } else {
        match cbor_decoded(bytes) {
            Some(node) => credential_management_of(node),
            None => Err(DecodeError::InvalidCbor),
        }
    }
}

/// Decodes credential-management data from the CBOR item of a response.
pub fn from_cbor(item: &CborValue) -> (r: Result<CredentialManagementData, DecodeError>)
    ensures
        agrees(r, credential_management_of(item@)),
{
    let entries = match item.entries() {
        Some(entries) => entries,
        None => {
            return Err(DecodeError::NotAMap);
        },
    };
    let ghost all = pairs(entries@);
    let mut data = CredentialManagementData::default();
    let mut i: usize = 0;
    assert(all.take(0) =~= Seq::<(CborNode, CborNode)>::empty());
    while i < entries.len()
        invariant
            i <= entries.len(),
            all == pairs(entries@),
            item@ == CborNode::Dict(all),
            first_error(all.take(i as int), check()) is None,
            data.existing_resident_credentials_count == u32_field(all.take(i as int), key(1)),
            data.max_possible_remaining_resident_credentials_count == u32_field(
                all.take(i as int),
                key(2),
            ),
            data.public_key_credential_rp_entity@ == rp_field(all.take(i as int)),
            data.rpid_hash@ == bytes_field(all.take(i as int), key(4)),
            data.total_rps == u32_field(all.take(i as int), key(5)),
            data.public_key_credential_user_entity@ == user_field(all.take(i as int)),
            data.public_key_credential_descriptor@ == descriptor_field(all.take(i as int)),
            data.public_key@ == public_key_field(all.take(i as int)),
            data.total_credentials == u32_field(all.take(i as int), key(9)),
            data.cred_protect == u32_field(all.take(i as int), key(10)),
        decreases entries.len() - i,
    {
        proof {
            lemma_first_error_step(all, i as int, check());
            if entry_error(all[i as int]) is Some {
                lemma_first_error_prefix(all, i + 1, check());
            }
            lemma_lookup_step(all, i as int, key(1));
            lemma_lookup_step(all, i as int, key(2));
            lemma_lookup_step(all, i as int, key(3));
            lemma_lookup_step(all, i as int, key(4));
            lemma_lookup_step(all, i as int, key(5));
            lemma_lookup_step(all, i as int, key(6));
            lemma_lookup_step(all, i as int, key(7));
            lemma_lookup_step(all, i as int, key(8));
            lemma_lookup_step(all, i as int, key(9));
            lemma_lookup_step(all, i as int, key(10));
        }
        let entry = &entries[i];
        if is_key(&entry.0, 1) || is_key(&entry.0, 2) || is_key(&entry.0, 5) || is_key(
            &entry.0,
            9,
        ) || is_key(&entry.0, 10) {
            let n: u32 = match entry.1.to_u32() {
                Some(n) => n,
                None => {
                    assert(!entry_ok(all[i as int]));
                    return Err(DecodeError::TypeMismatch);
                },
            };
            if is_key(&entry.0, 1) {
                data.existing_resident_credentials_count = n;
            } else if is_key(&entry.0, 2) {
                data.max_possible_remaining_resident_credentials_count = n;
            } else if is_key(&entry.0, 5) {
                data.total_rps = n;
            } else if is_key(&entry.0, 9) {
                data.total_credentials = n;
            } else {
                data.cred_protect = n;
            }
        } else if is_key(&entry.0, 3) {
            match PublicKeyCredentialRpEntity::from_cbor(&entry.1) {
                Some(rp) => {
                    data.public_key_credential_rp_entity = rp;
                },
                None => {
                    assert(!entry_ok(all[i as int]));
                    return Err(DecodeError::TypeMismatch);
                },
            }
        } else if is_key(&entry.0, 4) {
            match entry.1.to_bytes() {
                Some(hash) => {
                    data.rpid_hash = hash;
                },
                None => {
                    assert(!entry_ok(all[i as int]));
                    return Err(DecodeError::TypeMismatch);
                },
            }
        } else if is_key(&entry.0, 6) {
            match PublicKeyCredentialUserEntity::from_cbor(&entry.1) {
                Some(user) => {
                    data.public_key_credential_user_entity = user;
                },
                None => {
                    assert(!entry_ok(all[i as int]));
                    return Err(DecodeError::TypeMismatch);
                },
            }
        } else if is_key(&entry.0, 7) {
            match PublicKeyCredentialDescriptor::from_cbor(&entry.1) {
                Some(descriptor) => {
                    data.public_key_credential_descriptor = descriptor;
                },
                None => {
                    assert(!entry_ok(all[i as int]));
                    return Err(DecodeError::TypeMismatch);
                },
            }
        } else if is_key(&entry.0, 8) {
            match PublicKey::from_cose(&entry.1) {
                Some(public_key) => {
                    data.public_key = public_key;
                },
                None => {
                    assert(!entry_ok(all[i as int]));
                    return Err(DecodeError::TypeMismatch);
                },
            }
        }
        i += 1;
    }
    assert(all.take(i as int) =~= all);
    assert(data@ =~= record_of(all));
    Ok(data)
}

/// Decodes credential-management data from the CBOR bytes of a response.
pub fn parse_cbor(bytes: &[u8]) -> (r: Result<CredentialManagementData, DecodeError>)
    ensures
        agrees(r, credential_management_parsed(bytes@)),
{
    if bytes.len() == 0 {
        return Ok(CredentialManagementData::default());
    }
    match decode(bytes) {
        Ok(item) => from_cbor(&item),
        Err(e) => Err(e),
    }
}

/// Whether a key is one that the credential-management response defines.
pub open spec fn is_known_key(k: CborNode) -> bool {
    is_count_key(k) || k == key(3) || k == key(4) || k == key(6) || k == key(7) || k == key(8)
}

/// Forward compatibility: an entry under a key that the response does not
/// define, added anywhere in the map, changes nothing of what is decoded,
/// neither the record nor whether there is one.
pub proof fn lemma_unknown_key_ignored(
    entries: Seq<(CborNode, CborNode)>,
    at: int,
    extra: (CborNode, CborNode),
)
    requires
        0 <= at <= entries.len(),
        !is_known_key(extra.0),
    ensures
        credential_management_of(CborNode::Dict(entries.insert(at, extra)))
            == credential_management_of(CborNode::Dict(entries)),
{
    let more = entries.insert(at, extra);
    lemma_lookup_insert(entries, at, extra, key(1));
    lemma_lookup_insert(entries, at, extra, key(2));
    lemma_lookup_insert(entries, at, extra, key(3));
    lemma_lookup_insert(entries, at, extra, key(4));
    lemma_lookup_insert(entries, at, extra, key(5));
    lemma_lookup_insert(entries, at, extra, key(6));
    lemma_lookup_insert(entries, at, extra, key(7));
    lemma_lookup_insert(entries, at, extra, key(8));
    lemma_lookup_insert(entries, at, extra, key(9));
    lemma_lookup_insert(entries, at, extra, key(10));
    assert(record_of(more) == record_of(entries));
    lemma_first_error_insert(entries, at, extra, check());
}

} // verus!
