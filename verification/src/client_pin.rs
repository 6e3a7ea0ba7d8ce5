//! The client-PIN command: its requests and its response.
//!
//! The response is a map. Key 1 holds the authenticator's key-agreement key
//! as a COSE key, key 2 the encrypted PIN/UV auth token and key 3 the number
//! of PIN retries left. Other keys are passed over.

use crate::cbor::{
    add_entry, bytes_of, cbor_decoded, decode, integer_in, lemma_lookup_insert, lookup, pairs,
    CborNode, CborValue,
};
use crate::error::DecodeError;
use crate::fields::{
    agrees, bytes_field, first_error, is_key, key, lemma_first_error_insert,
    lemma_first_error_prefix, lemma_first_error_step, lemma_lookup_step, u32_field, EntryCheck,
};
use crate::public_key::{public_key_of, PublicKey, PublicKeyModel, COSE_KTY_EC2};
use crate::request::PIN_PROTOCOL;
use vstd::prelude::*;

verus! {

/// Subcommand: ask for the number of PIN retries left.
pub const SUB_COMMAND_GET_RETRIES: i128 = 1;

/// Subcommand: ask for the authenticator's key-agreement key.
pub const SUB_COMMAND_GET_KEY_AGREEMENT: i128 = 2;

/// Subcommand: exchange the encrypted PIN hash for a PIN/UV auth token.
pub const SUB_COMMAND_GET_PIN_TOKEN: i128 = 5;

/// COSE algorithm of a key-agreement key: ECDH-ES with HKDF-256.
pub const COSE_ALG_ECDH_ES_HKDF_256: i128 = -25;

/// COSE curve of a key-agreement key: P-256.
pub const COSE_CRV_P256: i128 = 1;

/// What a client-PIN response can hold.
#[derive(Debug, Clone, PartialEq, Eq)]
pub struct ClientPinData {
    pub key_agreement: PublicKey,
    pub pin_token_enc: Vec<u8>,
    pub retries: u32,
}

/// A client-PIN response as a mathematical value.
#[verifier::ext_equal]
pub struct ClientPinModel {
    pub key_agreement: PublicKeyModel,
    pub pin_token_enc: Seq<u8>,
    pub retries: u32,
}

impl View for ClientPinData {
    type V = ClientPinModel;

    open spec fn view(&self) -> ClientPinModel {
        ClientPinModel {
            key_agreement: self.key_agreement@,
            pin_token_enc: self.pin_token_enc@,
            retries: self.retries,
        }
    }
}

impl ClientPinModel {
    /// The response with every field at its default.
    pub open spec fn empty() -> ClientPinModel {
        ClientPinModel {
            key_agreement: PublicKeyModel::empty(),
            pin_token_enc: Seq::empty(),
            retries: 0,
        }
    }
}

impl Default for ClientPinData {
    fn default() -> (r: Self)
        ensures
            r@ == ClientPinModel::empty(),
    {
        let r = ClientPinData {
            key_agreement: PublicKey::default(),
            pin_token_enc: Vec::new(),
            retries: 0,
        };
        assert(r@ =~= ClientPinModel::empty());
        r
    }
}

/// Whether an entry of the response map can be taken.
pub open spec fn entry_ok(entry: (CborNode, CborNode)) -> bool {
    &&& entry.0 == key(1) ==> public_key_of(entry.1) is Some
    &&& entry.0 == key(2) ==> bytes_of(entry.1) is Some
    &&& entry.0 == key(3) ==> integer_in(entry.1, 0, u32::MAX as int) is Some
}

/// What is wrong with an entry of the response map, if anything: an entry
/// that cannot be taken is a type mismatch.
pub open spec fn entry_error(entry: (CborNode, CborNode)) -> Option<DecodeError> {
    if entry_ok(entry) {
        None
    } else {
        Some(DecodeError::TypeMismatch)
    }
}

/// The rule by which the entries of the response map are checked.
pub open spec fn check() -> EntryCheck {
    |entry: (CborNode, CborNode)| entry_error(entry)
}

/// The key-agreement key under key 1, or the empty one.
pub open spec fn key_agreement_field(entries: Seq<(CborNode, CborNode)>) -> PublicKeyModel {
    match lookup(entries, key(1)) {
        Some(v) => match public_key_of(v) {
            Some(k) => k,
            None => PublicKeyModel::empty(),
        },
        None => PublicKeyModel::empty(),
    }
}

/// The record that the entries of a response map stand for.
pub open spec fn record_of(entries: Seq<(CborNode, CborNode)>) -> ClientPinModel {
    ClientPinModel {
        key_agreement: key_agreement_field(entries),
        pin_token_enc: bytes_field(entries, key(2)),
        retries: u32_field(entries, key(3)),
    }
}

/// The client-PIN data that a CBOR item stands for. The item must be a map;
/// an entry that cannot be taken is a type mismatch.
pub open spec fn client_pin_of(node: CborNode) -> Result<ClientPinModel, DecodeError> {
    match node {
        CborNode::Dict(entries) => match first_error(entries, check()) {
            Some(e) => Err(e),
            None => Ok(record_of(entries)),
        },
        _ => Err(DecodeError::NotAMap),
    }
}

/// The client-PIN data that response bytes stand for.
pub open spec fn client_pin_parsed(bytes: Seq<u8>) -> Result<ClientPinModel, DecodeError> {
    match cbor_decoded(bytes) {
        Some(node) => client_pin_of(node),
        None => Err(DecodeError::InvalidCbor),
    }
}

/// Decodes client-PIN data from the CBOR item of a response.
pub fn from_cbor(item: &CborValue) -> (r: Result<ClientPinData, DecodeError>)
    ensures
        agrees(r, client_pin_of(item@)),
{
    let entries = match item.entries() {
        Some(entries) => entries,
        None => {
            return Err(DecodeError::NotAMap);
        },
    };
    let ghost all = pairs(entries@);
    let mut data = ClientPinData::default();
    let mut i: usize = 0;
    assert(all.take(0) =~= Seq::<(CborNode, CborNode)>::empty());
    while i < entries.len()
        invariant
            i <= entries.len(),
            all == pairs(entries@),
            item@ == CborNode::Dict(all),
            first_error(all.take(i as int), check()) is None,
            data.key_agreement@ == key_agreement_field(all.take(i as int)),
            data.pin_token_enc@ == bytes_field(all.take(i as int), key(2)),
            data.retries == u32_field(all.take(i as int), key(3)),
        decreases entries.len() - i,
    {
        proof {
            lemma_first_error_step(all, i as int, check());
            if entry_error(all[i as int]) is Some {
                lemma_first_error_prefix(all, i + 1, check());
            }
            lemma_lookup_step(all, i as int, key(1));
            lemma_lookup_step(all, i as int, key(2));
            lemma_lookup_step(all, i as int, key(3));
        }
        let entry = &entries[i];
        if is_key(&entry.0, 1) {
            match PublicKey::from_cose(&entry.1) {
                Some(found) => {
                    data.key_agreement = found;
                },
                None => {
                    assert(!entry_ok(all[i as int]));
                    return Err(DecodeError::TypeMismatch);
                },
            }
        } else if is_key(&entry.0, 2) {
            match entry.1.to_bytes() {
                Some(token) => {
                    data.pin_token_enc = token;
                },
                None => {
                    assert(!entry_ok(all[i as int]));
                    return Err(DecodeError::TypeMismatch);
                },
            }
        } else if is_key(&entry.0, 3) {
            match entry.1.to_u32() {
                Some(n) => {
                    data.retries = n;
                },
                None => {
                    assert(!entry_ok(all[i as int]));
                    return Err(DecodeError::TypeMismatch);
                },
            }
        }
        i += 1;
    }
    assert(all.take(i as int) =~= all);
    assert(data@ =~= record_of(all));
    Ok(data)
}

/// Decodes client-PIN data from the CBOR bytes of a response.
pub fn parse_cbor(bytes: &[u8]) -> (r: Result<ClientPinData, DecodeError>)
    ensures
        agrees(r, client_pin_parsed(bytes@)),
{
    match decode(bytes) {
        Ok(item) => from_cbor(&item),
        Err(e) => Err(e),
    }
}

/// Forward compatibility: an entry under a key that the response does not
/// define, added anywhere in the map, changes nothing of what is decoded,
/// neither the record nor whether there is one.
pub proof fn lemma_unknown_key_ignored(
    entries: Seq<(CborNode, CborNode)>,
    at: int,
    extra: (CborNode, CborNode),
)
    requires
        0 <= at <= entries.len(),
        extra.0 != key(1),
        extra.0 != key(2),
        extra.0 != key(3),
    ensures
        client_pin_of(CborNode::Dict(entries.insert(at, extra))) == client_pin_of(
            CborNode::Dict(entries),
        ),
{
    let more = entries.insert(at, extra);
    lemma_lookup_insert(entries, at, extra, key(1));
    lemma_lookup_insert(entries, at, extra, key(2));
    lemma_lookup_insert(entries, at, extra, key(3));
    assert(record_of(more) == record_of(entries));
    lemma_first_error_insert(entries, at, extra, check());
}

/// The parameters of a client-PIN subcommand that takes none of its own:
/// key 1 the PIN protocol, key 2 the subcommand.
pub open spec fn plain_map(sub_command: int) -> CborNode {
    CborNode::Dict(
        seq![
            (key(1), CborNode::Integer(PIN_PROTOCOL as int)),
            (key(2), CborNode::Integer(sub_command)),
        ],
    )
}

/// The platform's key-agreement key as a COSE key: an elliptic-curve key on
/// P-256 for ECDH, with the two coordinates.
pub open spec fn key_agreement_map(x: Seq<u8>, y: Seq<u8>) -> CborNode {
    CborNode::Dict(
        seq![
            (key(1), CborNode::Integer(COSE_KTY_EC2 as int)),
            (key(3), CborNode::Integer(COSE_ALG_ECDH_ES_HKDF_256 as int)),
            (key(-1), CborNode::Integer(COSE_CRV_P256 as int)),
            (key(-2), CborNode::Bytes(x)),
            (key(-3), CborNode::Bytes(y)),
        ],
    )
}

/// The parameters of the get-PIN-token subcommand: key 1 the PIN protocol,
/// key 2 the subcommand, key 3 the platform's key-agreement key and key 6
/// the encrypted PIN hash.
pub open spec fn pin_token_map(x: Seq<u8>, y: Seq<u8>, pin_hash_enc: Seq<u8>) -> CborNode {
    CborNode::Dict(
        seq![
            (key(1), CborNode::Integer(PIN_PROTOCOL as int)),
            (key(2), CborNode::Integer(SUB_COMMAND_GET_PIN_TOKEN as int)),
            (key(3), key_agreement_map(x, y)),
            (key(6), CborNode::Bytes(pin_hash_enc)),
        ],
    )
}

fn plain_parameters(sub_command: i128) -> (r: CborValue)
    ensures
        r@ == plain_map(sub_command as int),
{
    let mut entries: Vec<(CborValue, CborValue)> = Vec::new();
    assert(pairs(entries@) =~= Seq::<(CborNode, CborNode)>::empty());
    add_entry(&mut entries, CborValue::integer(1), CborValue::integer(PIN_PROTOCOL));
    add_entry(&mut entries, CborValue::integer(2), CborValue::integer(sub_command));
    assert(pairs(entries@) =~= plain_map(sub_command as int)->Dict_0);
    CborValue::dict(entries)
}

/// Builds the parameters of the get-retries subcommand.
pub fn get_retries_parameters() -> (r: CborValue)
    ensures
        r@ == plain_map(SUB_COMMAND_GET_RETRIES as int),
{
    plain_parameters(SUB_COMMAND_GET_RETRIES)
}

/// Builds the parameters of the get-key-agreement subcommand.
pub fn get_key_agreement_parameters() -> (r: CborValue)
    ensures
        r@ == plain_map(SUB_COMMAND_GET_KEY_AGREEMENT as int),
{
    plain_parameters(SUB_COMMAND_GET_KEY_AGREEMENT)
}

/// Builds the parameters of the get-PIN-token subcommand from the
/// coordinates of the platform's key-agreement key and the encrypted PIN
/// hash, both computed by the caller.
pub fn get_pin_token_parameters(x: &[u8], y: &[u8], pin_hash_enc: &[u8]) -> (r: CborValue)
    ensures
        r@ == pin_token_map(x@, y@, pin_hash_enc@),
{
    let mut agreement: Vec<(CborValue, CborValue)> = Vec::new();
    assert(pairs(agreement@) =~= Seq::<(CborNode, CborNode)>::empty());
    add_entry(&mut agreement, CborValue::integer(1), CborValue::integer(COSE_KTY_EC2 as i128));
    add_entry(&mut agreement, CborValue::integer(3), CborValue::integer(COSE_ALG_ECDH_ES_HKDF_256));
    add_entry(&mut agreement, CborValue::integer(-1), CborValue::integer(COSE_CRV_P256));
    add_entry(&mut agreement, CborValue::integer(-2), CborValue::bytes(x));
    add_entry(&mut agreement, CborValue::integer(-3), CborValue::bytes(y));
    assert(pairs(agreement@) =~= key_agreement_map(x@, y@)->Dict_0);
    let mut entries: Vec<(CborValue, CborValue)> = Vec::new();
    assert(pairs(entries@) =~= Seq::<(CborNode, CborNode)>::empty());
    add_entry(&mut entries, CborValue::integer(1), CborValue::integer(PIN_PROTOCOL));
    add_entry(&mut entries, CborValue::integer(2), CborValue::integer(SUB_COMMAND_GET_PIN_TOKEN));
    add_entry(&mut entries, CborValue::integer(3), CborValue::dict(agreement));
    add_entry(&mut entries, CborValue::integer(6), CborValue::bytes(pin_hash_enc));
    assert(pairs(entries@) =~= pin_token_map(x@, y@, pin_hash_enc@)->Dict_0);
    CborValue::dict(entries)
}

} // verus!
