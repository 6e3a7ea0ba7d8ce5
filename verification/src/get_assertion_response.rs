//! Decoding of the get-assertion response.
//!
//! The response is a map. Key 1 holds the descriptor of the credential, key
//! 2 the authenticator data, key 3 the signature, key 4 the user and key 5
//! the number of credentials that match. Other keys are passed over. Of the
//! authenticator data only the fixed header is read.

use crate::auth_data::{
    flag_set, has_flag, AUTH_HEADER_LEN, FLAG_USER_PRESENT, FLAG_USER_VERIFIED,
};
use crate::bytes::{be_u32, copy_range, read_be_u32};
use crate::cbor::{
    bytes_of, cbor_decoded, decode, integer_in, lemma_lookup_insert, lookup, pairs, CborNode,
    CborValue,
};
use crate::error::DecodeError;
use crate::fields::{
    agrees, bytes_field, first_error, is_key, key, lemma_first_error_insert,
    lemma_first_error_prefix, lemma_first_error_step, lemma_lookup_step, u32_field, EntryCheck,
};
use crate::get_assertion_params::{Assertion, AssertionModel};
use crate::public_key_credential_descriptor::{descriptor_of, PublicKeyCredentialDescriptor};
use crate::public_key_credential_user_entity::{
    user_entity_of, PublicKeyCredentialUserEntity, UserEntityModel,
};
use vstd::prelude::*;

verus! {

/// What is wrong with an entry of the response map, if anything.
/// Authenticator data that ends before its header does is truncated; a
/// value of another kind than its key asks for is a type mismatch.
pub open spec fn entry_error(entry: (CborNode, CborNode)) -> Option<DecodeError> {
    if entry.0 == key(1) {
        if descriptor_of(entry.1) is Some {
            None
        } else {
            Some(DecodeError::TypeMismatch)
        }
    } else if entry.0 == key(2) {
        match bytes_of(entry.1) {
            Some(data) => if data.len() >= AUTH_HEADER_LEN {
                None
            } else {
                Some(DecodeError::Truncated)
            },
            None => Some(DecodeError::TypeMismatch),
        }
    } else if entry.0 == key(3) {
        if bytes_of(entry.1) is Some {
            None
        } else {
            Some(DecodeError::TypeMismatch)
        }
    } else if entry.0 == key(4) {
        if user_entity_of(entry.1) is Some {
            None
        } else {
            Some(DecodeError::TypeMismatch)
        }
    } else if entry.0 == key(5) {
        if integer_in(entry.1, 0, u32::MAX as int) is Some {
            None
        } else {
            Some(DecodeError::TypeMismatch)
        }
    } else {
        None
    }
}

/// The rule by which the entries of the response map are checked.
pub open spec fn check() -> EntryCheck {
    |entry: (CborNode, CborNode)| entry_error(entry)
}

/// The id of the credential under key 1, or the empty one.
pub open spec fn credential_id_field(entries: Seq<(CborNode, CborNode)>) -> Seq<u8> {
    match lookup(entries, key(1)) {
        Some(v) => match descriptor_of(v) {
            Some(d) => d.id,
            None => Seq::empty(),
        },
        None => Seq::empty(),
    }
}

/// The user under key 4, or the empty one.
pub open spec fn user_field(entries: Seq<(CborNode, CborNode)>) -> UserEntityModel {
    match lookup(entries, key(4)) {
        Some(v) => match user_entity_of(v) {
            Some(user) => user,
            None => UserEntityModel::empty(),
        },
        None => UserEntityModel::empty(),
    }
}

/// The assertion that the entries of a response map stand for. The hash,
/// the two flags and the counter are read from the authenticator data, where
/// it has its header.
pub open spec fn record_of(entries: Seq<(CborNode, CborNode)>) -> AssertionModel {
    let data = bytes_field(entries, key(2));
    let whole = data.len() >= AUTH_HEADER_LEN;
    AssertionModel {
        rpid_hash: if whole {
            data.subrange(0, 32)
        } else {
            Seq::empty()
        },
        flags_user_present_result: whole && flag_set(data[32], FLAG_USER_PRESENT),
        flags_user_verified_result: whole && flag_set(data[32], FLAG_USER_VERIFIED),
        sign_count: if whole {
            be_u32(data, 33) as u32
        } else {
            0
        },
        number_of_credentials: u32_field(entries, key(5)),
        signature: bytes_field(entries, key(3)),
        user: user_field(entries),
        credential_id: credential_id_field(entries),
        auth_data: data,
    }
}

/// The assertion that a CBOR item stands for. The item must be a map; the
/// first entry with which something is wrong gives the error.
pub open spec fn assertion_of(node: CborNode) -> Result<AssertionModel, DecodeError> {
    match node {
        CborNode::Dict(entries) => match first_error(entries, check()) {
            Some(e) => Err(e),
            None => Ok(record_of(entries)),
        },
        _ => Err(DecodeError::NotAMap),
    }
}

/// The assertion that response bytes stand for.
pub open spec fn assertion_parsed(bytes: Seq<u8>) -> Result<AssertionModel, DecodeError> {
    match cbor_decoded(bytes) {
        Some(node) => assertion_of(node),
        None => Err(DecodeError::InvalidCbor),
    }
}

/// Decodes an assertion from the CBOR item of a response.
pub fn from_cbor(item: &CborValue) -> (r: Result<Assertion, DecodeError>)
    ensures
        agrees(r, assertion_of(item@)),
{
    let entries = match item.entries() {
        Some(entries) => entries,
        None => {
            return Err(DecodeError::NotAMap);
        },
    };
    let ghost all = pairs(entries@);
    let mut credential_id: Vec<u8> = Vec::new();
    let mut data: Vec<u8> = Vec::new();
    let mut signature: Vec<u8> = Vec::new();
    let mut user = PublicKeyCredentialUserEntity::default();
    let mut count: u32 = 0;
    let mut i: usize = 0;
    assert(all.take(0) =~= Seq::<(CborNode, CborNode)>::empty());
    while i < entries.len()
        invariant
            i <= entries.len(),
            all == pairs(entries@),
            item@ == CborNode::Dict(all),
            first_error(all.take(i as int), check()) is None,
            credential_id@ == credential_id_field(all.take(i as int)),
            data@ == bytes_field(all.take(i as int), key(2)),
            signature@ == bytes_field(all.take(i as int), key(3)),
            user@ == user_field(all.take(i as int)),
            count == u32_field(all.take(i as int), key(5)),
        decreases entries.len() - i,
    {
        proof {
            lemma_lookup_step(all, i as int, key(1));
            lemma_lookup_step(all, i as int, key(2));
            lemma_lookup_step(all, i as int, key(3));
            lemma_lookup_step(all, i as int, key(4));
            lemma_lookup_step(all, i as int, key(5));
            lemma_first_error_step(all, i as int, check());
            if entry_error(all[i as int]) is Some {
                lemma_first_error_prefix(all, i + 1, check());
            }
        }
        let entry = &entries[i];
        if is_key(&entry.0, 1) {
            match PublicKeyCredentialDescriptor::from_cbor(&entry.1) {
                Some(descriptor) => {
                    credential_id = descriptor.id;
                },
                None => {
                    return Err(DecodeError::TypeMismatch);
                },
            }
        } else if is_key(&entry.0, 2) {
            match entry.1.to_bytes() {
                Some(bytes) => {
                    if bytes.len() < AUTH_HEADER_LEN {
                        return Err(DecodeError::Truncated);
                    }
                    data = bytes;
                },
                None => {
                    return Err(DecodeError::TypeMismatch);
                },
            }
        } else if is_key(&entry.0, 3) {
            match entry.1.to_bytes() {
                Some(bytes) => {
                    signature = bytes;
                },
                None => {
                    return Err(DecodeError::TypeMismatch);
                },
            }
        } else if is_key(&entry.0, 4) {
            match PublicKeyCredentialUserEntity::from_cbor(&entry.1) {
                Some(found) => {
                    user = found;
                },
                None => {
                    return Err(DecodeError::TypeMismatch);
                },
            }
        } else if is_key(&entry.0, 5) {
            match entry.1.to_u32() {
                Some(n) => {
                    count = n;
                },
                None => {
                    return Err(DecodeError::TypeMismatch);
                },
            }
        }
        i += 1;
    }
    assert(all.take(i as int) =~= all);
    let whole = data.len() >= AUTH_HEADER_LEN;
    let assertion = Assertion {
        rpid_hash: if whole {
            copy_range(data.as_slice(), 0, 32)
        } else {
            Vec::new()
        },
        flags_user_present_result: whole && has_flag(data[32], FLAG_USER_PRESENT),
        flags_user_verified_result: whole && has_flag(data[32], FLAG_USER_VERIFIED),
        sign_count: if whole {
            read_be_u32(data.as_slice(), 33)
        } else {
            0
        },
        number_of_credentials: count,
        signature,
        user,
        credential_id,
        auth_data: data,
    };
    assert(assertion@ =~= record_of(all));
    Ok(assertion)
}

/// Decodes an assertion from the CBOR bytes of a response.
pub fn parse_cbor(bytes: &[u8]) -> (r: Result<Assertion, DecodeError>)
    ensures
        agrees(r, assertion_parsed(bytes@)),
{
    match decode(bytes) {
        Ok(item) => from_cbor(&item),
        Err(e) => Err(e),
    }
}

/// Whether a key is one that the get-assertion response defines.
pub open spec fn is_known_key(k: CborNode) -> bool {
    k == key(1) || k == key(2) || k == key(3) || k == key(4) || k == key(5)
}

/// Forward compatibility: an entry under a key that the response does not
/// define, added anywhere in the map, changes nothing of what is decoded,
/// neither the assertion nor the error.
pub proof fn lemma_unknown_key_ignored(
    entries: Seq<(CborNode, CborNode)>,
    at: int,
    extra: (CborNode, CborNode),
)
    requires
        0 <= at <= entries.len(),
        !is_known_key(extra.0),
    ensures
        assertion_of(CborNode::Dict(entries.insert(at, extra))) == assertion_of(
            CborNode::Dict(entries),
        ),
{
    lemma_lookup_insert(entries, at, extra, key(1));
    lemma_lookup_insert(entries, at, extra, key(2));
    lemma_lookup_insert(entries, at, extra, key(3));
    lemma_lookup_insert(entries, at, extra, key(4));
    lemma_lookup_insert(entries, at, extra, key(5));
    lemma_first_error_insert(entries, at, extra, check());
}

} // verus!
