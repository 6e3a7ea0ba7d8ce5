//! The descriptor by which a credential is named towards the authenticator.

use crate::cbor::{bytes_of, pairs, text_of, CborNode, CborValue};
use crate::fields::{bytes_field, is_name, lemma_lookup_step, name, text_field};
use vstd::prelude::*;

verus! {

/// A credential's id and type.
#[derive(Debug, Clone, PartialEq, Eq)]
pub struct PublicKeyCredentialDescriptor {
    pub id: Vec<u8>,
    pub ctype: String,
}

/// A descriptor as a mathematical value.
#[verifier::ext_equal]
pub struct DescriptorModel {
    pub id: Seq<u8>,
    pub ctype: Seq<char>,
}

impl View for PublicKeyCredentialDescriptor {
    type V = DescriptorModel;

    open spec fn view(&self) -> DescriptorModel {
        DescriptorModel { id: self.id@, ctype: self.ctype@ }
    }
}

impl DescriptorModel {
    /// The descriptor with an empty id and an empty type.
    pub open spec fn empty() -> DescriptorModel {
        DescriptorModel { id: Seq::empty(), ctype: Seq::empty() }
    }
}

impl Default for PublicKeyCredentialDescriptor {
    fn default() -> (r: Self)
        ensures
            r@ == DescriptorModel::empty(),
    {
        PublicKeyCredentialDescriptor { id: Vec::new(), ctype: String::new() }
    }
}

/// Whether an entry of a descriptor map can be taken: `id` holds bytes,
/// `type` holds text; other names are passed over.
pub open spec fn descriptor_entry_ok(entry: (CborNode, CborNode)) -> bool {
    if entry.0 == name("id"@) {
        bytes_of(entry.1) is Some
    } else if entry.0 == name("type"@) {
        text_of(entry.1) is Some
    } else {
        true
    }
}

/// The descriptor that an item stands for, where it is a map whose entries
/// can all be taken.
pub open spec fn descriptor_of(node: CborNode) -> Option<DescriptorModel> {
    match node {
        CborNode::Dict(entries) => if forall|i: int|
            0 <= i < entries.len() ==> descriptor_entry_ok(#[trigger] entries[i]) {
            Some(
                DescriptorModel {
                    id: bytes_field(entries, name("id"@)),
                    ctype: text_field(entries, name("type"@)),
                },
            )
        } else {
            None
        },
        _ => None,
    }
}

impl PublicKeyCredentialDescriptor {
    /// Reads a descriptor from its map.
    pub fn from_cbor(item: &CborValue) -> (r: Option<PublicKeyCredentialDescriptor>)
        ensures
            match descriptor_of(item@) {
                Some(model) => r matches Some(d) && d@ == model,
                None => r is None,
            },
    {
        let entries = match item.entries() {
            Some(entries) => entries,
            None => {
                return None;
            },
        };
        let ghost all = pairs(entries@);
        let mut descriptor = PublicKeyCredentialDescriptor::default();
        let mut i: usize = 0;
        assert(all.take(0) =~= Seq::<(CborNode, CborNode)>::empty());
        while i < entries.len()
            invariant
                i <= entries.len(),
                all == pairs(entries@),
                item@ == CborNode::Dict(all),
                forall|j: int| 0 <= j < i ==> descriptor_entry_ok(#[trigger] all[j]),
                descriptor.id@ == bytes_field(all.take(i as int), name("id"@)),
                descriptor.ctype@ == text_field(all.take(i as int), name("type"@)),
            decreases entries.len() - i,
        {
            proof {
                reveal_strlit("id");
                reveal_strlit("type");
                assert("id"@.len() != "type"@.len());
                lemma_lookup_step(all, i as int, name("id"@));
                lemma_lookup_step(all, i as int, name("type"@));
            }
            let entry = &entries[i];
            if is_name(&entry.0, "id") {
                match entry.1.to_bytes() {
                    Some(bytes) => {
                        descriptor.id = bytes;
                    },
                    None => {
                        assert(!descriptor_entry_ok(all[i as int]));
                        return None;
                    },
                }
            } else if is_name(&entry.0, "type") {
                match entry.1.to_text() {
                    Some(text) => {
                        descriptor.ctype = text;
                    },
                    None => {
                        assert(!descriptor_entry_ok(all[i as int]));
                        return None;
                    },
                }
            }
            i += 1;
        }
        assert(all.take(i as int) =~= all);
        assert(descriptor@ =~= descriptor_of(item@)->0);
        Some(descriptor)
    }
}

} // verus!
