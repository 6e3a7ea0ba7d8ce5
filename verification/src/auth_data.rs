//! The authenticator data that comes with a new credential.
//!
//! Its layout is fixed: 32 bytes of relying-party id hash, one byte of flags
//! and four bytes of signature counter. Where the flags say that attested
//! credential data is included, there follow 16 bytes of AAGUID, two bytes
//! of credential id length, the credential id, the credential public key as
//! a COSE key and, last, the extension map. Where they do not, nothing after
//! the counter is read.

use crate::bytes::{be_u16, be_u32, copy_range, read_be_u16, read_be_u32};
use crate::cbor::{
    bool_of, cbor_sequence_decoded, decode_sequence, integer_in, nodes, pairs, CborNode,
    CborValue,
};
use crate::credential_protection::CredentialProtectionPolicy;
use crate::error::DecodeError;
use crate::fields::{agrees, is_name, name};
use crate::make_credential_params::{extensions_view, Extension, ExtensionModel};
use crate::public_key::{public_key_of, PublicKey, PublicKeyModel};
use vstd::prelude::*;
use vstd::slice::slice_subrange;

verus! {

/// Flag bit: the user was present.
pub const FLAG_USER_PRESENT: u8 = 0x01;

/// Flag bit: the user was verified.
pub const FLAG_USER_VERIFIED: u8 = 0x04;

/// Flag bit: attested credential data is included.
pub const FLAG_ATTESTED: u8 = 0x40;

/// Flag bit: extension data is included.
pub const FLAG_EXTENSIONS: u8 = 0x80;

/// Length of the part that every authenticator data has.
pub const AUTH_HEADER_LEN: usize = 37;

/// Offset of the credential id, where attested credential data is included.
pub const CREDENTIAL_ID_AT: usize = 55;

/// Whether a flag bit is set in the flags byte.
pub open spec fn flag_set(flags: u8, mask: u8) -> bool {
    flags & mask != 0
}

/// Tests a flag bit of the flags byte.
pub fn has_flag(flags: u8, mask: u8) -> (r: bool)
    ensures
        r == flag_set(flags, mask),
{
    flags & mask != 0
}

/// Authenticator data, field by field.
#[derive(Debug, Clone, PartialEq, Eq)]
pub struct AuthData {
    pub rpid_hash: Vec<u8>,
    pub flags: u8,
    pub sign_count: u32,
    pub aaguid: Vec<u8>,
    pub credential_id: Vec<u8>,
    pub public_key: PublicKey,
    pub extensions: Vec<Extension>,
}

/// Authenticator data as a mathematical value.
#[verifier::ext_equal]
pub struct AuthDataModel {
    pub rpid_hash: Seq<u8>,
    pub flags: u8,
    pub sign_count: u32,
    pub aaguid: Seq<u8>,
    pub credential_id: Seq<u8>,
    pub public_key: PublicKeyModel,
    pub extensions: Seq<ExtensionModel>,
}

impl View for AuthData {
    type V = AuthDataModel;

    open spec fn view(&self) -> AuthDataModel {
        AuthDataModel {
            rpid_hash: self.rpid_hash@,
            flags: self.flags,
            sign_count: self.sign_count,
            aaguid: self.aaguid@,
            credential_id: self.credential_id@,
            public_key: self.public_key@,
            extensions: extensions_view(self.extensions@),
        }
    }
}

impl AuthDataModel {
    /// Authenticator data with every field at its default.
    pub open spec fn empty() -> AuthDataModel {
        AuthDataModel {
            rpid_hash: Seq::empty(),
            flags: 0,
            sign_count: 0,
            aaguid: Seq::empty(),
            credential_id: Seq::empty(),
            public_key: PublicKeyModel::empty(),
            extensions: Seq::empty(),
        }
    }
}

impl Default for AuthData {
    fn default() -> (r: Self)
        ensures
            r@ == AuthDataModel::empty(),
    {
        let r = AuthData {
            rpid_hash: Vec::new(),
            flags: 0,
            sign_count: 0,
            aaguid: Vec::new(),
            credential_id: Vec::new(),
            public_key: PublicKey::default(),
            extensions: Vec::new(),
        };
        assert(r@ =~= AuthDataModel::empty());
        r
    }
}

/// Whether an entry of an extension map can be taken: `hmac-secret` holds a
/// boolean, `credProtect` a number; other names are passed over.
pub open spec fn extension_entry_ok(entry: (CborNode, CborNode)) -> bool {
    if entry.0 == name("hmac-secret"@) {
        bool_of(entry.1) is Some
    } else if entry.0 == name("credProtect"@) {
        integer_in(entry.1, 0, u32::MAX as int) is Some
    } else {
        true
    }
}

/// The extension that an entry of an extension map stands for, if any.
pub open spec fn extension_in(entry: (CborNode, CborNode)) -> Option<ExtensionModel> {
    if entry.0 == name("hmac-secret"@) {
        match bool_of(entry.1) {
            Some(b) => Some(ExtensionModel::HmacSecret(Some(b))),
            None => None,
        }
    } else if entry.0 == name("credProtect"@) {
        match integer_in(entry.1, 0, u32::MAX as int) {
            Some(n) => Some(
                ExtensionModel::CredProtect(Some(CredentialProtectionPolicy::of_number(n as u32))),
            ),
            None => None,
        }
    } else {
        None
    }
}

/// The extensions that the entries of an extension map stand for, in the
/// order of the entries.
pub open spec fn listed_extensions(entries: Seq<(CborNode, CborNode)>) -> Seq<ExtensionModel>
    decreases entries.len(),
{
    if entries.len() == 0 {
        Seq::empty()
    } else {
        match extension_in(entries.last()) {
            Some(e) => listed_extensions(entries.drop_last()).push(e),
            None => listed_extensions(entries.drop_last()),
        }
    }
}

/// The extensions that an item stands for, where it is a map whose entries
/// can all be taken.
pub open spec fn extensions_of(node: CborNode) -> Option<Seq<ExtensionModel>> {
    match node {
        CborNode::Dict(entries) => if forall|i: int|
            0 <= i < entries.len() ==> extension_entry_ok(#[trigger] entries[i]) {
            Some(listed_extensions(entries))
        } else {
            None
        },
        _ => None,
    }
}

/// Reads the extensions from an extension map.
pub fn extensions_from(item: &CborValue) -> (r: Option<Vec<Extension>>)
    ensures
        match extensions_of(item@) {
            Some(list) => r matches Some(out) && extensions_view(out@) == list,
            None => r is None,
        },
{
    let entries = match item.entries() {
        Some(entries) => entries,
        None => {
            return None;
        },
    };
    let ghost all = pairs(entries@);
    let mut out: Vec<Extension> = Vec::new();
    let mut i: usize = 0;
    assert(all.take(0) =~= Seq::<(CborNode, CborNode)>::empty());
    while i < entries.len()
        invariant
            i <= entries.len(),
            all == pairs(entries@),
            item@ == CborNode::Dict(all),
            forall|j: int| 0 <= j < i ==> extension_entry_ok(#[trigger] all[j]),
            extensions_view(out@) == listed_extensions(all.take(i as int)),
        decreases entries.len() - i,
    {
        proof {
            assert(all.take(i + 1).drop_last() =~= all.take(i as int));
            assert(all.take(i + 1).last() == all[i as int]);
        }
        let ghost before = extensions_view(out@);
        let entry = &entries[i];
        if is_name(&entry.0, "hmac-secret") {
            match entry.1.to_bool() {
                Some(b) => {
                    out.push(Extension::HmacSecret(Some(b)));
                    assert(extensions_view(out@) =~= before.push(
                        ExtensionModel::HmacSecret(Some(b)),
                    ));
                },
                None => {
                    assert(!extension_entry_ok(all[i as int]));
                    return None;
                },
            }
        } else if is_name(&entry.0, "credProtect") {
            match entry.1.to_u32() {
                Some(n) => {
                    let policy = CredentialProtectionPolicy::from_number(n);
                    out.push(Extension::CredProtect(Some(policy)));
                    assert(extensions_view(out@) =~= before.push(
                        ExtensionModel::CredProtect(Some(policy)),
                    ));
                },
                None => {
                    assert(!extension_entry_ok(all[i as int]));
                    return None;
                },
            }
        }
        i += 1;
    }
    assert(all.take(i as int) =~= all);
    Some(out)
}

/// The public key and the extensions that the items after the credential id
/// stand for. The first item is the key and must be there; the second, where
/// there is one, is the extension map.
pub open spec fn credential_items_of(items: Seq<CborNode>) -> Result<
    (PublicKeyModel, Seq<ExtensionModel>),
    DecodeError,
> {
    if items.len() == 0 {
        Err(DecodeError::Truncated)
    } else {
        match public_key_of(items[0]) {
            None => Err(DecodeError::TypeMismatch),
            Some(k) => if items.len() == 1 {
                Ok((k, Seq::empty()))
            } else {
                match extensions_of(items[1]) {
                    None => Err(DecodeError::TypeMismatch),
                    Some(list) => Ok((k, list)),
                }
            },
        }
    }
}

/// Reads the public key and the extensions from the items that were decoded
/// after the credential id.
pub fn credential_from_items(items: &Vec<CborValue>) -> (r: Result<
    (PublicKey, Vec<Extension>),
    DecodeError,
>)
    ensures
        match credential_items_of(nodes(items@)) {
            Ok((k, list)) => r matches Ok((key, extensions)) && key@ == k && extensions_view(
                extensions@,
            ) == list,
            Err(e) => r matches Err(x) && x == e,
        },
{
    if items.len() == 0 {
        return Err(DecodeError::Truncated);
    }
    let key = match PublicKey::from_cose(&items[0]) {
        Some(key) => key,
        None => {
            return Err(DecodeError::TypeMismatch);
        },
    };
    if items.len() == 1 {
        let none: Vec<Extension> = Vec::new();
        assert(extensions_view(none@) =~= Seq::<ExtensionModel>::empty());
        return Ok((key, none));
    }
    match extensions_from(&items[1]) {
        Some(extensions) => Ok((key, extensions)),
        None => Err(DecodeError::TypeMismatch),
    }
}

/// The authenticator data that has the header of `data` and no attested
/// credential data: AAGUID, credential id, public key and extensions are at
/// their defaults.
pub open spec fn header_of(data: Seq<u8>) -> AuthDataModel
    recommends
        data.len() >= AUTH_HEADER_LEN,
{
    AuthDataModel {
        rpid_hash: data.subrange(0, 32),
        flags: data[32],
        sign_count: be_u32(data, 33) as u32,
        aaguid: Seq::empty(),
        credential_id: Seq::empty(),
        public_key: PublicKeyModel::empty(),
        extensions: Seq::empty(),
    }
}

/// Offset of the first byte after the credential id.
pub open spec fn credential_end(data: Seq<u8>) -> int
    recommends
        data.len() >= CREDENTIAL_ID_AT,
{
    CREDENTIAL_ID_AT + be_u16(data, 53)
}

/// The authenticator data with attested credential data, given the items
/// that the bytes after the credential id decode to.
pub open spec fn attested_of(data: Seq<u8>, items: Seq<CborNode>) -> Result<
    AuthDataModel,
    DecodeError,
>
    recommends
        data.len() >= credential_end(data),
{
    match credential_items_of(items) {
        Ok((k, list)) => Ok(
            AuthDataModel {
                rpid_hash: data.subrange(0, 32),
                flags: data[32],
                sign_count: be_u32(data, 33) as u32,
                aaguid: data.subrange(37, 53),
                credential_id: data.subrange(CREDENTIAL_ID_AT as int, credential_end(data)),
                public_key: k,
                extensions: list,
            },
        ),
        Err(e) => Err(e),
    }
}

/// The authenticator data that the bytes stand for.
///
/// Bytes that end before the layout does are truncated. Without the
/// attested flag the header is all there is. With it, the bytes after the
/// credential id must be CBOR items, the first of them a COSE key.
pub open spec fn auth_data_of(data: Seq<u8>) -> Result<AuthDataModel, DecodeError> {
    if data.len() < AUTH_HEADER_LEN {
        Err(DecodeError::Truncated)
    } else if !flag_set(data[32], FLAG_ATTESTED) {
        Ok(header_of(data))
    } else if data.len() < CREDENTIAL_ID_AT || data.len() < credential_end(data) {
        Err(DecodeError::Truncated)
    } else {
        match cbor_sequence_decoded(data.subrange(credential_end(data), data.len() as int)) {
            Some(items) => attested_of(data, items),
            None => Err(DecodeError::InvalidCbor),
        }
    }
}

/// Decodes authenticator data.
pub fn parse_auth_data(data: &[u8]) -> (r: Result<AuthData, DecodeError>)
    ensures
        agrees(r, auth_data_of(data@)),
{
    if data.len() < AUTH_HEADER_LEN {
        return Err(DecodeError::Truncated);
    }
    let mut auth = AuthData::default();
    auth.rpid_hash = copy_range(data, 0, 32);
    auth.flags = data[32];
    auth.sign_count = read_be_u32(data, 33);
    if !has_flag(data[32], FLAG_ATTESTED) {
        assert(auth@ =~= header_of(data@));
        return Ok(auth);
    }
    if data.len() < CREDENTIAL_ID_AT {
        return Err(DecodeError::Truncated);
    }
    let id_len: usize = read_be_u16(data, 53) as usize;
    if data.len() - CREDENTIAL_ID_AT < id_len {
        return Err(DecodeError::Truncated);
    }
    let end: usize = CREDENTIAL_ID_AT + id_len;
    auth.aaguid = copy_range(data, 37, 53);
    auth.credential_id = copy_range(data, CREDENTIAL_ID_AT, end);
    let items = match decode_sequence(slice_subrange(data, end, data.len())) {
        Ok(items) => items,
        Err(e) => {
            return Err(e);
        },
    };
    match credential_from_items(&items) {
        Ok((key, extensions)) => {
            auth.public_key = key;
            auth.extensions = extensions;
            assert(auth@ =~= attested_of(data@, nodes(items@))->Ok_0);
            Ok(auth)
        },
        Err(e) => Err(e),
    }
}

/// Absence of attested credential data is no error: authenticator data that
/// has its header and whose attested flag is clear decodes, whatever follows
/// the header, and AAGUID, credential id and public key are at their
/// defaults.
pub proof fn lemma_without_attested_data(data: Seq<u8>)
    requires
        data.len() >= AUTH_HEADER_LEN,
        !flag_set(data[32], FLAG_ATTESTED),
    ensures
        auth_data_of(data) matches Ok(auth) && auth.aaguid == Seq::<u8>::empty()
            && auth.credential_id == Seq::<u8>::empty() && auth.public_key
            == PublicKeyModel::empty(),
{
}

} // verus!
