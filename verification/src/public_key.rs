//! The credential public key, as the authenticator sends it in COSE form.
//!
//! A COSE key is a map. Key 1 holds the key type (1 for an octet key pair, 2
//! for an elliptic-curve key), key 3 the algorithm, key -1 the curve, key -2
//! the x coordinate and key -3 the y coordinate.

use crate::cbor::{bytes_of, integer_in, pairs, CborNode, CborValue};
use crate::bytes::append_all;
use crate::fields::{bytes_field, i32_field, is_key, key, lemma_lookup_step};
use vstd::prelude::*;

verus! {

/// COSE key type of an octet key pair.
pub const COSE_KTY_OKP: i32 = 1;

/// COSE key type of an elliptic-curve key with two coordinates.
pub const COSE_KTY_EC2: i32 = 2;

/// The kind of a credential public key.
#[derive(Debug, Clone, Copy, PartialEq, Eq, Structural)]
pub enum PublicKeyType {
    Unknown,
    Ecdsa256,
    Ed25519,
}

/// A credential public key: its kind and its raw form. For an
/// elliptic-curve key that is the byte 4 followed by both coordinates, for an
/// octet key pair the x coordinate alone.
#[derive(Debug, Clone, PartialEq, Eq)]
pub struct PublicKey {
    pub key_type: PublicKeyType,
    pub der: Vec<u8>,
}

/// A public key as a mathematical value.
#[verifier::ext_equal]
pub struct PublicKeyModel {
    pub key_type: PublicKeyType,
    pub der: Seq<u8>,
}

impl View for PublicKey {
    type V = PublicKeyModel;

    open spec fn view(&self) -> PublicKeyModel {
        PublicKeyModel { key_type: self.key_type, der: self.der@ }
    }
}

impl PublicKeyModel {
    /// The key that stands for "no key": unknown kind, no bytes.
    pub open spec fn empty() -> PublicKeyModel {
        PublicKeyModel { key_type: PublicKeyType::Unknown, der: Seq::empty() }
    }
}

impl Default for PublicKey {
    fn default() -> (r: Self)
        ensures
            r@ == PublicKeyModel::empty(),
    {
        PublicKey { key_type: PublicKeyType::Unknown, der: Vec::new() }
    }
}

/// Whether an entry of a COSE key can be taken.
pub open spec fn cose_entry_ok(entry: (CborNode, CborNode)) -> bool {
    &&& (entry.0 == key(1) || entry.0 == key(3) || entry.0 == key(-1)) ==> integer_in(
        entry.1,
        i32::MIN as int,
        i32::MAX as int,
    ) is Some
    &&& (entry.0 == key(-2) || entry.0 == key(-3)) ==> bytes_of(entry.1) is Some
}

/// The public key that a key type and two coordinates make.
pub open spec fn key_from_parts(kty: i32, x: Seq<u8>, y: Seq<u8>) -> PublicKeyModel {
    if kty == COSE_KTY_EC2 {
        PublicKeyModel { key_type: PublicKeyType::Ecdsa256, der: seq![4u8] + x + y }
    } else if kty == COSE_KTY_OKP {
        PublicKeyModel { key_type: PublicKeyType::Ed25519, der: x }
    } else {
        PublicKeyModel::empty()
    }
}

/// The public key that a COSE key stands for, where the item is a map whose
/// entries can all be taken.
pub open spec fn public_key_of(node: CborNode) -> Option<PublicKeyModel> {
    match node {
        CborNode::Dict(entries) => if forall|i: int|
            0 <= i < entries.len() ==> cose_entry_ok(#[trigger] entries[i]) {
            Some(
                key_from_parts(
                    i32_field(entries, key(1)),
                    bytes_field(entries, key(-2)),
                    bytes_field(entries, key(-3)),
                ),
            )
        } else {
            None
        },
        _ => None,
    }
}

impl PublicKey {
    /// Reads a public key from a COSE key.
    pub fn from_cose(item: &CborValue) -> (r: Option<PublicKey>)
        ensures
            match public_key_of(item@) {
                Some(model) => r matches Some(k) && k@ == model,
                None => r is None,
            },
    {
        let entries = match item.entries() {
            Some(entries) => entries,
            None => {
                return None;
            },
        };
        let ghost all = pairs(entries@);
        let mut kty: i32 = 0;
        let mut x: Vec<u8> = Vec::new();
        let mut y: Vec<u8> = Vec::new();
        let mut i: usize = 0;
        assert(all.take(0) =~= Seq::<(CborNode, CborNode)>::empty());
        while i < entries.len()
            invariant
                i <= entries.len(),
                all == pairs(entries@),
                item@ == CborNode::Dict(all),
                forall|j: int| 0 <= j < i ==> cose_entry_ok(#[trigger] all[j]),
                kty == i32_field(all.take(i as int), key(1)),
                x@ == bytes_field(all.take(i as int), key(-2)),
                y@ == bytes_field(all.take(i as int), key(-3)),
            decreases entries.len() - i,
        {
            proof {
                lemma_lookup_step(all, i as int, key(1));
                lemma_lookup_step(all, i as int, key(-2));
                lemma_lookup_step(all, i as int, key(-3));
            }
            let entry = &entries[i];
            if is_key(&entry.0, 1) {
                match entry.1.to_i32() {
                    Some(n) => {
                        kty = n;
                    },
                    None => {
                        assert(!cose_entry_ok(all[i as int]));
                        return None;
                    },
                }
            } else if is_key(&entry.0, 3) || is_key(&entry.0, -1) {
                if entry.1.to_i32().is_none() {
                    assert(!cose_entry_ok(all[i as int]));
                    return None;
                }
            } else if is_key(&entry.0, -2) {
                match entry.1.to_bytes() {
                    Some(b) => {
                        x = b;
                    },
                    None => {
                        assert(!cose_entry_ok(all[i as int]));
                        return None;
                    },
                }
            } else if is_key(&entry.0, -3) {
                match entry.1.to_bytes() {
                    Some(b) => {
                        y = b;
                    },
                    None => {
                        assert(!cose_entry_ok(all[i as int]));
                        return None;
                    },
                }
            }
            i += 1;
        }
        assert(all.take(i as int) =~= all);
        let found = if kty == COSE_KTY_EC2 {
            let mut der: Vec<u8> = Vec::new();
            der.push(4);
            append_all(&mut der, x.as_slice());
            append_all(&mut der, y.as_slice());
            assert(der@ =~= seq![4u8] + x@ + y@);
            PublicKey { key_type: PublicKeyType::Ecdsa256, der }
        } else if kty == COSE_KTY_OKP {
            PublicKey { key_type: PublicKeyType::Ed25519, der: x }
        } else {
            PublicKey::default()
        };
        Some(found)
    }
}

} // verus!
