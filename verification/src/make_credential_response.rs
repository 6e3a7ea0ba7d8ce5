//! Decoding of the make-credential response into an attestation object.
//!
//! The response is a map. Key 1 holds the attestation format, key 2 the
//! authenticator data and key 3 the attestation statement, a map of its own
//! with the names `alg`, `sig` and `x5c`. Other keys are passed over.

use crate::auth_data::{
    auth_data_of, flag_set, has_flag, parse_auth_data, AuthData, AuthDataModel, FLAG_ATTESTED,
    FLAG_EXTENSIONS, FLAG_USER_PRESENT, FLAG_USER_VERIFIED, AUTH_HEADER_LEN,
};
use crate::cbor::{
    bytes_of, cbor_decoded, decode, integer_in, lemma_lookup_found, lemma_lookup_insert, lookup,
    nodes, pairs, text_of, CborNode, CborValue,
};
use crate::error::DecodeError;
use crate::fields::{
    agrees, bytes_field, first_error, i32_field, is_key, is_name, key, lemma_first_error_insert,
    lemma_first_error_none, lemma_first_error_prefix, lemma_first_error_step, lemma_lookup_step,
    name, text_field, EntryCheck,
};
use crate::make_credential_params::{chain_view, Attestation, AttestationModel};
use crate::public_key::PublicKeyModel;
use crate::public_key_credential_descriptor::{DescriptorModel, PublicKeyCredentialDescriptor};
use vstd::prelude::*;

verus! {

/// An attestation statement: the algorithm, the signature and the
/// certificate chain.
#[derive(Debug, Clone, PartialEq, Eq)]
pub struct AttStmt {
    pub alg: i32,
    pub sig: Vec<u8>,
    pub x5c: Vec<Vec<u8>>,
}

/// An attestation statement as a mathematical value.
#[verifier::ext_equal]
pub struct AttStmtModel {
    pub alg: i32,
    pub sig: Seq<u8>,
    pub x5c: Seq<Seq<u8>>,
}

impl View for AttStmt {
    type V = AttStmtModel;

    open spec fn view(&self) -> AttStmtModel {
        AttStmtModel { alg: self.alg, sig: self.sig@, x5c: chain_view(self.x5c@) }
    }
}

impl AttStmtModel {
    /// The statement with every field at its default.
    pub open spec fn empty() -> AttStmtModel {
        AttStmtModel { alg: 0, sig: Seq::empty(), x5c: Seq::empty() }
    }
}

impl Default for AttStmt {
    fn default() -> (r: Self)
        ensures
            r@ == AttStmtModel::empty(),
    {
        let r = AttStmt { alg: 0, sig: Vec::new(), x5c: Vec::new() };
        assert(r@ =~= AttStmtModel::empty());
        r
    }
}

/// The certificate chain that an item stands for, where it is an array of
/// byte strings.
pub open spec fn chain_of(node: CborNode) -> Option<Seq<Seq<u8>>> {
    match node {
        CborNode::Array(items) => if forall|i: int|
            0 <= i < items.len() ==> bytes_of(#[trigger] items[i]) is Some {
            Some(Seq::new(items.len(), |i: int| bytes_of(items[i])->0))
        } else {
            None
        },
        _ => None,
    }
}

/// The certificate chain under `x5c`, or the empty one.
pub open spec fn chain_field(entries: Seq<(CborNode, CborNode)>) -> Seq<Seq<u8>> {
    match lookup(entries, name("x5c"@)) {
        Some(v) => match chain_of(v) {
            Some(chain) => chain,
            None => Seq::empty(),
        },
        None => Seq::empty(),
    }
}

/// Whether an entry of an attestation statement can be taken.
pub open spec fn stmt_entry_ok(entry: (CborNode, CborNode)) -> bool {
    if entry.0 == name("alg"@) {
        integer_in(entry.1, i32::MIN as int, i32::MAX as int) is Some
    } else if entry.0 == name("sig"@) {
        bytes_of(entry.1) is Some
    } else if entry.0 == name("x5c"@) {
        chain_of(entry.1) is Some
    } else {
        true
    }
}

/// The attestation statement that an item stands for, where it is a map
/// whose entries can all be taken.
pub open spec fn att_stmt_of(node: CborNode) -> Option<AttStmtModel> {
    match node {
        CborNode::Dict(entries) => if forall|i: int|
            0 <= i < entries.len() ==> stmt_entry_ok(#[trigger] entries[i]) {
            Some(
                AttStmtModel {
                    alg: i32_field(entries, name("alg"@)),
                    sig: bytes_field(entries, name("sig"@)),
                    x5c: chain_field(entries),
                },
            )
        } else {
            None
        },
        _ => None,
    }
}

fn chain_from(item: &CborValue) -> (r: Option<Vec<Vec<u8>>>)
    ensures
        match chain_of(item@) {
            Some(chain) => r matches Some(out) && chain_view(out@) == chain,
            None => r is None,
        },
{
    let items = match item.items() {
        Some(items) => items,
        None => {
            return None;
        },
    };
    let ghost all = nodes(items@);
    let mut out: Vec<Vec<u8>> = Vec::new();
    let mut i: usize = 0;
    while i < items.len()
        invariant
            i <= items.len(),
            all == nodes(items@),
            item@ == CborNode::Array(all),
            out@.len() == i,
            forall|j: int| 0 <= j < i ==> bytes_of(#[trigger] all[j]) is Some,
            forall|j: int| 0 <= j < i ==> (#[trigger] out@[j])@ == bytes_of(all[j])->0,
        decreases items.len() - i,
    {
        match items[i].to_bytes() {
            Some(certificate) => {
                out.push(certificate);
            },
            None => {
                assert(bytes_of(all[i as int]) is None);
                return None;
            },
        }
        i += 1;
    }
    assert(chain_view(out@) =~= chain_of(item@)->0);
    Some(out)
}

/// Reads an attestation statement from its map.
pub fn att_stmt_from(item: &CborValue) -> (r: Option<AttStmt>)
    ensures
        match att_stmt_of(item@) {
            Some(model) => r matches Some(stmt) && stmt@ == model,
            None => r is None,
        },
{
    let entries = match item.entries() {
        Some(entries) => entries,
        None => {
            return None;
        },
    };
    let ghost all = pairs(entries@);
    let mut stmt = AttStmt::default();
    let mut i: usize = 0;
    assert(all.take(0) =~= Seq::<(CborNode, CborNode)>::empty());
    while i < entries.len()
        invariant
            i <= entries.len(),
            all == pairs(entries@),
            item@ == CborNode::Dict(all),
            forall|j: int| 0 <= j < i ==> stmt_entry_ok(#[trigger] all[j]),
            stmt.alg == i32_field(all.take(i as int), name("alg"@)),
            stmt.sig@ == bytes_field(all.take(i as int), name("sig"@)),
            chain_view(stmt.x5c@) == chain_field(all.take(i as int)),
        decreases entries.len() - i,
    {
        proof {
            reveal_strlit("alg");
            reveal_strlit("sig");
            reveal_strlit("x5c");
            assert("alg"@[0] != "sig"@[0]);
            assert("alg"@[0] != "x5c"@[0]);
            assert("sig"@[0] != "x5c"@[0]);
            lemma_lookup_step(all, i as int, name("alg"@));
            lemma_lookup_step(all, i as int, name("sig"@));
            lemma_lookup_step(all, i as int, name("x5c"@));
        }
        let entry = &entries[i];
        if is_name(&entry.0, "alg") {
            match entry.1.to_i32() {
                Some(n) => {
                    stmt.alg = n;
                },
                None => {
                    assert(!stmt_entry_ok(all[i as int]));
                    return None;
                },
            }
        } else if is_name(&entry.0, "sig") {
            match entry.1.to_bytes() {
                Some(sig) => {
                    stmt.sig = sig;
                },
                None => {
                    assert(!stmt_entry_ok(all[i as int]));
                    return None;
                },
            }
        } else if is_name(&entry.0, "x5c") {
            match chain_from(&entry.1) {
                Some(chain) => {
                    stmt.x5c = chain;
                },
                None => {
                    assert(!stmt_entry_ok(all[i as int]));
                    return None;
                },
            }
        }
        i += 1;
    }
    assert(all.take(i as int) =~= all);
    assert(stmt@ =~= att_stmt_of(item@)->0);
    Some(stmt)
}

/// What is wrong with an entry of the response map, if anything. Under key
/// 1 there must be text, under key 3 an attestation statement. Under key 2
/// there must be a byte string that decodes as authenticator data; where it
/// does not, the error is that of the authenticator data.
pub open spec fn entry_error(entry: (CborNode, CborNode)) -> Option<DecodeError> {
    if entry.0 == key(1) {
        if text_of(entry.1) is Some {
            None
        } else {
            Some(DecodeError::TypeMismatch)
        }
    } else if entry.0 == key(2) {
        match bytes_of(entry.1) {
            Some(data) => match auth_data_of(data) {
                Ok(_) => None,
                Err(e) => Some(e),
            },
            None => Some(DecodeError::TypeMismatch),
        }
    } else if entry.0 == key(3) {
        if att_stmt_of(entry.1) is Some {
            None
        } else {
            Some(DecodeError::TypeMismatch)
        }
    } else {
        None
    }
}

/// The rule by which the entries of the response map are checked.
pub open spec fn check() -> EntryCheck {
    |entry: (CborNode, CborNode)| entry_error(entry)
}

/// The authenticator data under key 2, or the empty one.
pub open spec fn auth_field(entries: Seq<(CborNode, CborNode)>) -> AuthDataModel {
    match lookup(entries, key(2)) {
        Some(v) => match bytes_of(v) {
            Some(data) => match auth_data_of(data) {
                Ok(auth) => auth,
                Err(_) => AuthDataModel::empty(),
            },
            None => AuthDataModel::empty(),
        },
        None => AuthDataModel::empty(),
    }
}

/// The attestation statement under key 3, or the empty one.
pub open spec fn stmt_field(entries: Seq<(CborNode, CborNode)>) -> AttStmtModel {
    match lookup(entries, key(3)) {
        Some(v) => match att_stmt_of(v) {
            Some(stmt) => stmt,
            None => AttStmtModel::empty(),
        },
        None => AttStmtModel::empty(),
    }
}

/// The attestation that a format, authenticator data with its raw bytes and
/// an attestation statement make. The four flags are bits of the one flags
/// byte.
pub open spec fn assembled(
    fmt: Seq<char>,
    auth: AuthDataModel,
    raw: Seq<u8>,
    stmt: AttStmtModel,
) -> AttestationModel {
    AttestationModel {
        fmt,
        rpid_hash: auth.rpid_hash,
        flags_user_present_result: flag_set(auth.flags, FLAG_USER_PRESENT),
        flags_user_verified_result: flag_set(auth.flags, FLAG_USER_VERIFIED),
        flags_attested_credential_data_included: flag_set(auth.flags, FLAG_ATTESTED),
        flags_extension_data_included: flag_set(auth.flags, FLAG_EXTENSIONS),
        sign_count: auth.sign_count,
        aaguid: auth.aaguid,
        credential_descriptor: DescriptorModel { id: auth.credential_id, ctype: Seq::empty() },
        credential_publickey: auth.public_key,
        extensions: auth.extensions,
        auth_data: raw,
        attstmt_alg: stmt.alg,
        attstmt_sig: stmt.sig,
        attstmt_x5c: stmt.x5c,
    }
}

/// The attestation that the entries of a response map stand for.
pub open spec fn record_of(entries: Seq<(CborNode, CborNode)>) -> AttestationModel {
    assembled(
        text_field(entries, key(1)),
        auth_field(entries),
        bytes_field(entries, key(2)),
        stmt_field(entries),
    )
}

/// The attestation that a CBOR item stands for. The item must be a map; the
/// first entry with which something is wrong gives the error.
pub open spec fn attestation_of(node: CborNode) -> Result<AttestationModel, DecodeError> {
    match node {
        CborNode::Dict(entries) => match first_error(entries, check()) {
            Some(e) => Err(e),
            None => Ok(record_of(entries)),
        },
        _ => Err(DecodeError::NotAMap),
    }
}

/// The attestation that response bytes stand for.
pub open spec fn attestation_parsed(bytes: Seq<u8>) -> Result<AttestationModel, DecodeError> {
    match cbor_decoded(bytes) {
        Some(node) => attestation_of(node),
        None => Err(DecodeError::InvalidCbor),
    }
}

fn assemble(fmt: String, auth: AuthData, raw: Vec<u8>, stmt: AttStmt) -> (r: Attestation)
    ensures
        r@ == assembled(fmt@, auth@, raw@, stmt@),
{
    let r = Attestation {
        fmt,
        rpid_hash: auth.rpid_hash,
        flags_user_present_result: has_flag(auth.flags, FLAG_USER_PRESENT),
        flags_user_verified_result: has_flag(auth.flags, FLAG_USER_VERIFIED),
        flags_attested_credential_data_included: has_flag(auth.flags, FLAG_ATTESTED),
        flags_extension_data_included: has_flag(auth.flags, FLAG_EXTENSIONS),
        sign_count: auth.sign_count,
        aaguid: auth.aaguid,
        credential_descriptor: PublicKeyCredentialDescriptor {
            id: auth.credential_id,
            ctype: String::new(),
        },
        credential_publickey: auth.public_key,
        extensions: auth.extensions,
        auth_data: raw,
        attstmt_alg: stmt.alg,
        attstmt_sig: stmt.sig,
        attstmt_x5c: stmt.x5c,
    };
    assert(r@ =~= assembled(fmt@, auth@, raw@, stmt@));
    r
}

/// Decodes an attestation from the CBOR item of a response.
pub fn from_cbor(item: &CborValue) -> (r: Result<Attestation, DecodeError>)
    ensures
        agrees(r, attestation_of(item@)),
{
    let entries = match item.entries() {
        Some(entries) => entries,
        None => {
            return Err(DecodeError::NotAMap);
        },
    };
    let ghost all = pairs(entries@);
    let mut fmt = String::new();
    let mut auth = AuthData::default();
    let mut raw: Vec<u8> = Vec::new();
    let mut stmt = AttStmt::default();
    let mut i: usize = 0;
    assert(all.take(0) =~= Seq::<(CborNode, CborNode)>::empty());
    while i < entries.len()
        invariant
            i <= entries.len(),
            all == pairs(entries@),
            item@ == CborNode::Dict(all),
            first_error(all.take(i as int), check()) is None,
            fmt@ == text_field(all.take(i as int), key(1)),
            auth@ == auth_field(all.take(i as int)),
            raw@ == bytes_field(all.take(i as int), key(2)),
            stmt@ == stmt_field(all.take(i as int)),
        decreases entries.len() - i,
    {
        proof {
            lemma_lookup_step(all, i as int, key(1));
            lemma_lookup_step(all, i as int, key(2));
            lemma_lookup_step(all, i as int, key(3));
            lemma_first_error_step(all, i as int, check());
            if entry_error(all[i as int]) is Some {
                lemma_first_error_prefix(all, i + 1, check());
            }
        }
        let entry = &entries[i];
        if is_key(&entry.0, 1) {
            match entry.1.to_text() {
                Some(text) => {
                    fmt = text;
                },
                None => {
                    return Err(DecodeError::TypeMismatch);
                },
            }
        } else if is_key(&entry.0, 2) {
            match entry.1.to_bytes() {
                Some(data) => {
                    match parse_auth_data(data.as_slice()) {
                        Ok(parsed) => {
                            auth = parsed;
                            raw = data;
                        },
                        Err(e) => {
                            return Err(e);
                        },
                    }
                },
                None => {
                    return Err(DecodeError::TypeMismatch);
                },
            }
        } else if is_key(&entry.0, 3) {
            match att_stmt_from(&entry.1) {
                Some(found) => {
                    stmt = found;
                },
                None => {
                    return Err(DecodeError::TypeMismatch);
                },
            }
        }
        i += 1;
    }
    assert(all.take(i as int) =~= all);
    Ok(assemble(fmt, auth, raw, stmt))
}

/// Decodes an attestation from the CBOR bytes of a response.
pub fn parse_cbor(bytes: &[u8]) -> (r: Result<Attestation, DecodeError>)
    ensures
        agrees(r, attestation_parsed(bytes@)),
{
    match decode(bytes) {
        Ok(item) => from_cbor(&item),
        Err(e) => Err(e),
    }
}

/// Whether a key is one that the make-credential response defines.
pub open spec fn is_known_key(k: CborNode) -> bool {
    k == key(1) || k == key(2) || k == key(3)
}

/// Forward compatibility: an entry under a key that the response does not
/// define, added anywhere in the map, changes nothing of what is decoded,
/// neither the attestation nor the error.
pub proof fn lemma_unknown_key_ignored(
    entries: Seq<(CborNode, CborNode)>,
    at: int,
    extra: (CborNode, CborNode),
)
    requires
        0 <= at <= entries.len(),
        !is_known_key(extra.0),
    ensures
        attestation_of(CborNode::Dict(entries.insert(at, extra))) == attestation_of(
            CborNode::Dict(entries),
        ),
{
    lemma_lookup_insert(entries, at, extra, key(1));
    lemma_lookup_insert(entries, at, extra, key(2));
    lemma_lookup_insert(entries, at, extra, key(3));
    lemma_first_error_insert(entries, at, extra, check());
}

/// Whether an item is authenticator data in bytes that has its header and
/// whose attested flag is clear.
pub open spec fn is_plain_auth_data(node: CborNode) -> bool {
    bytes_of(node) matches Some(data) && data.len() >= AUTH_HEADER_LEN && !flag_set(
        data[32],
        FLAG_ATTESTED,
    )
}

/// A response without attested credential data decodes, and AAGUID,
/// credential descriptor and public key of the attestation are at their
/// defaults.
///
/// The response is a map that holds authenticator data with the attested
/// flag clear under key 2, wherever key 2 stands, and in which nothing is
/// wrong with the entries under the other keys.
pub proof fn lemma_without_attested_data(entries: Seq<(CborNode, CborNode)>)
    requires
        lookup(entries, key(2)) is Some,
        forall|i: int|
            0 <= i < entries.len() ==> if (#[trigger] entries[i]).0 == key(2) {
                is_plain_auth_data(entries[i].1)
            } else {
                entry_error(entries[i]) is None
            },
    ensures
        attestation_of(CborNode::Dict(entries)) matches Ok(a)
            && !a.flags_attested_credential_data_included && a.aaguid == Seq::<u8>::empty()
            && a.credential_descriptor == DescriptorModel::empty() && a.credential_publickey
            == PublicKeyModel::empty(),
{
    lemma_first_error_none(entries, check());
    lemma_lookup_found(entries, key(2));
    let at = choose|i: int|
        0 <= i < entries.len() && entries[i].0 == key(2) && lookup(entries, key(2)) == Some(
            entries[i].1,
        );
    assert(is_plain_auth_data(entries[at].1));
}

} // verus!
