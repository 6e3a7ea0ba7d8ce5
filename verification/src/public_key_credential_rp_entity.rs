//! The relying party on whose behalf a credential is held.

use crate::cbor::{pairs, text_of, CborNode, CborValue};
use crate::fields::{is_name, lemma_lookup_step, name, text_field};
use vstd::prelude::*;

verus! {

/// A relying party: its id (a domain name) and its display name.
#[derive(Debug, Clone, PartialEq, Eq)]
pub struct PublicKeyCredentialRpEntity {
    pub id: String,
    pub name: String,
}

/// A relying party as a mathematical value.
#[verifier::ext_equal]
pub struct RpEntityModel {
    pub id: Seq<char>,
    pub name: Seq<char>,
}

impl View for PublicKeyCredentialRpEntity {
    type V = RpEntityModel;

    open spec fn view(&self) -> RpEntityModel {
        RpEntityModel { id: self.id@, name: self.name@ }
    }
}

impl RpEntityModel {
    /// The relying party with an empty id and name.
    pub open spec fn empty() -> RpEntityModel {
        RpEntityModel { id: Seq::empty(), name: Seq::empty() }
    }
}

impl Default for PublicKeyCredentialRpEntity {
    fn default() -> (r: Self)
        ensures
            r@ == RpEntityModel::empty(),
    {
        PublicKeyCredentialRpEntity { id: String::new(), name: String::new() }
    }
}

/// Whether an entry of a relying-party map can be taken: `id` and `name`
/// hold text; other names are passed over.
pub open spec fn rp_entry_ok(entry: (CborNode, CborNode)) -> bool {
    (entry.0 == name("id"@) || entry.0 == name("name"@)) ==> text_of(entry.1) is Some
}

/// The relying party that an item stands for, where it is a map whose
/// entries can all be taken.
pub open spec fn rp_entity_of(node: CborNode) -> Option<RpEntityModel> {
    match node {
        CborNode::Dict(entries) => if forall|i: int|
            0 <= i < entries.len() ==> rp_entry_ok(#[trigger] entries[i]) {
            Some(
                RpEntityModel {
                    id: text_field(entries, name("id"@)),
                    name: text_field(entries, name("name"@)),
                },
            )
        } else {
            None
        },
        _ => None,
    }
}

impl PublicKeyCredentialRpEntity {
    /// Reads a relying party from its map.
    pub fn from_cbor(item: &CborValue) -> (r: Option<PublicKeyCredentialRpEntity>)
        ensures
            match rp_entity_of(item@) {
                Some(model) => r matches Some(rp) && rp@ == model,
                None => r is None,
            },
    {
        let entries = match item.entries() {
            Some(entries) => entries,
            None => {
                return None;
            },
        };
        let ghost all = pairs(entries@);
        let mut rp = PublicKeyCredentialRpEntity::default();
        let mut i: usize = 0;
        assert(all.take(0) =~= Seq::<(CborNode, CborNode)>::empty());
        while i < entries.len()
            invariant
                i <= entries.len(),
                all == pairs(entries@),
                item@ == CborNode::Dict(all),
                forall|j: int| 0 <= j < i ==> rp_entry_ok(#[trigger] all[j]),
                rp.id@ == text_field(all.take(i as int), name("id"@)),
                rp.name@ == text_field(all.take(i as int), name("name"@)),
            decreases entries.len() - i,
        {
            proof {
                reveal_strlit("id");
                reveal_strlit("name");
                assert("id"@.len() != "name"@.len());
                lemma_lookup_step(all, i as int, name("id"@));
                lemma_lookup_step(all, i as int, name("name"@));
            }
            let entry = &entries[i];
            if is_name(&entry.0, "id") {
                match entry.1.to_text() {
                    Some(text) => {
                        rp.id = text;
                    },
                    None => {
                        assert(!rp_entry_ok(all[i as int]));
                        return None;
                    },
                }
            } else if is_name(&entry.0, "name") {
                match entry.1.to_text() {
                    Some(text) => {
                        rp.name = text;
                    },
                    None => {
                        assert(!rp_entry_ok(all[i as int]));
                        return None;
                    },
                }
            }
            i += 1;
        }
        assert(all.take(i as int) =~= all);
        assert(rp@ =~= rp_entity_of(item@)->0);
        Some(rp)
    }
}

} // verus!
